//! The instruments.

use crate::soundfont::bytes::{le_u16, name_field, push_name, push_u16, NAME_WIDTH};
use crate::soundfont::chunk::{chunk_model, data_chunk, ChunkModel};
use crate::soundfont::record::{body, lemma_body_take, list_encodable, Record};
use riff::ChunkContents;
use vstd::prelude::*;
use vstd::utf8::encode_utf8;

verus! {

/// Width in bytes of an encoded instrument.
pub const INST_WIDTH: usize = 22;

/// The identifier of the instrument chunk.
pub open spec fn inst_id() -> Seq<u8> {
    seq!['i' as u8, 'n' as u8, 's' as u8, 't' as u8]
}

/// The list of instruments, closed by a terminal instrument.
#[derive(Debug, Clone)]
pub struct Instruments {
    pub contents: Vec<Instrument>,
}

/// An instrument: its name and where its zones begin.
#[derive(Debug)]
pub struct Instrument {
    /// At most 20 bytes.
    pub name: String,
    /// Index of the instrument's first zone in the instrument bag.
    pub inst_bag_idx: u16,
}

/// What an instrument record holds.
pub ghost struct InstrumentView {
    pub name: Seq<char>,
    pub inst_bag_idx: u16,
}

impl Record for InstrumentView {
    open spec fn width() -> nat {
        INST_WIDTH as nat
    }

    /// The name fits its field.
    open spec fn encodable(self) -> bool {
        encode_utf8(self.name).len() <= NAME_WIDTH
    }

    /// The 22 bytes of the instrument: the name field, then the bag index.
    open spec fn encoding(self) -> Seq<u8> {
        name_field(encode_utf8(self.name)) + le_u16(self.inst_bag_idx)
    }

    proof fn lemma_encoding_fills_width(self) {
    }
}

impl View for Instrument {
    type V = InstrumentView;

    open spec fn view(&self) -> InstrumentView {
        InstrumentView { name: self.name@, inst_bag_idx: self.inst_bag_idx }
    }
}

impl Clone for Instrument {
    fn clone(&self) -> (copy: Self)
        ensures
            copy@ == self@,
    {
        Instrument { name: self.name.clone(), inst_bag_idx: self.inst_bag_idx }
    }
}

impl Default for Instrument {
    fn default() -> (instrument: Self)
        ensures
            instrument@ == (InstrumentView { name: Seq::empty(), inst_bag_idx: 0 }),
    {
        Instrument { name: String::new(), inst_bag_idx: 0 }
    }
}

impl Instrument {
    /// Whether the name fits its field.
    pub fn is_encodable(&self) -> (fits: bool)
        ensures
            fits == self@.encodable(),
    {
        self.name.as_str().as_bytes().len() <= NAME_WIDTH
    }

    /// Encodes the instrument in 22 bytes.
    pub fn to_bytes(&self) -> (bytes: Vec<u8>)
        requires
            self@.encodable(),
        ensures
            bytes@ == self@.encoding(),
            bytes@.len() == INST_WIDTH,
    {
        let mut bytes: Vec<u8> = Vec::new();
        push_name(&mut bytes, self.name.as_str());
        push_u16(&mut bytes, self.inst_bag_idx);
        bytes
    }
}

impl View for Instruments {
    type V = Seq<InstrumentView>;

    open spec fn view(&self) -> Seq<InstrumentView> {
        Seq::new(self.contents@.len(), |i: int| self.contents@[i]@)
    }
}

impl Default for Instruments {
    fn default() -> (list: Self)
        ensures
            list@ == Seq::<InstrumentView>::empty(),
    {
        Self::new()
    }
}

impl Instruments {
    /// The empty list.
    pub fn new() -> (list: Self)
        ensures
            list@ == Seq::<InstrumentView>::empty(),
    {
        let list = Self { contents: Vec::new() };
        assert(list@ =~= Seq::<InstrumentView>::empty());
        list
    }

    /// Whether the list can be encoded: it holds a record, and the name of
    /// every record fits its field.
    pub fn is_encodable(&self) -> (fits: bool)
        ensures
            fits == list_encodable(self@),
    {
        if self.contents.len() == 0 {
            return false;
        }
        let mut i: usize = 0;
        while i < self.contents.len()
            invariant
                i <= self@.len(),
                forall|j: int| 0 <= j < i ==> (#[trigger] self@[j]).encodable(),
            decreases self@.len() - i,
        {
            assert(self@[i as int] == self.contents@[i as int]@);
            if !self.contents[i].is_encodable() {
                return false;
            }
            i += 1;
        }
        true
    }

    /// Wraps the encodings of the instruments, laid end to end, in the chunk
    /// `inst`. Its body is a whole number of records, at least one.
    pub fn to_riff(&self) -> (chunk: ChunkContents)
        requires
            list_encodable(self@),
        ensures
            chunk_model(chunk) == (ChunkModel::Data { id: inst_id(), body: body(self@) }),
            body(self@).len() == INST_WIDTH * self@.len(),
            body(self@).len() > 0,
    {
        let mut bytes: Vec<u8> = Vec::new();
        let mut i: usize = 0;
        while i < self.contents.len()
            invariant
                i <= self@.len(),
                list_encodable(self@),
                bytes@ == body(self@.take(i as int)),
                bytes@.len() == INST_WIDTH * i,
            decreases self@.len() - i,
        {
            assert(self@[i as int] == self.contents@[i as int]@);
            let mut record = self.contents[i].to_bytes();
            proof {
                lemma_body_take(self@, i as int);
            }
            bytes.append(&mut record);
            i += 1;
        }
        assert(self@.take(i as int) =~= self@);
        data_chunk(['i' as u8, 'n' as u8, 's' as u8, 't' as u8], bytes)
    }
}

} // verus!
