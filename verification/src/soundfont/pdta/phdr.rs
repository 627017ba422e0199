//! The preset headers.

use crate::soundfont::bytes::{
    le_u16, le_u32, name_field, push_name, push_u16, push_u32, NAME_WIDTH,
};
use crate::soundfont::chunk::{chunk_model, data_chunk, ChunkModel};
use crate::soundfont::record::{body, lemma_body_take, list_encodable, Record};
use riff::ChunkContents;
use vstd::prelude::*;
use vstd::utf8::encode_utf8;

verus! {

/// Width in bytes of an encoded preset header.
pub const PHDR_WIDTH: usize = 38;

/// The identifier of the preset header chunk.
pub open spec fn phdr_id() -> Seq<u8> {
    seq!['p' as u8, 'h' as u8, 'd' as u8, 'r' as u8]
}

/// The list of preset headers, closed by a terminal header.
#[derive(Debug, Clone)]
pub struct PresetHeaders {
    pub contents: Vec<PresetHeader>,
}

/// A preset: its name, its MIDI address and where its zones begin.
#[derive(Debug)]
pub struct PresetHeader {
    /// At most 20 bytes.
    pub name: String,
    /// MIDI preset number.
    pub preset: u16,
    /// MIDI bank number.
    pub bank: u16,
    /// Index of the preset's first zone in the preset bag.
    pub pbag_idx: u16,
    /// Unused.
    pub library: u32,
    /// Unused.
    pub genre: u32,
    /// Unused.
    pub morphology: u32,
}

/// What a preset header holds.
pub ghost struct PresetHeaderView {
    pub name: Seq<char>,
    pub preset: u16,
    pub bank: u16,
    pub pbag_idx: u16,
    pub library: u32,
    pub genre: u32,
    pub morphology: u32,
}

impl Record for PresetHeaderView {
    open spec fn width() -> nat {
        PHDR_WIDTH as nat
    }

    /// The name fits its field.
    open spec fn encodable(self) -> bool {
        encode_utf8(self.name).len() <= NAME_WIDTH
    }

    /// The 38 bytes of the header: the name field, then preset, bank and bag
    /// index in two bytes each, then the three unused fields in four each.
    open spec fn encoding(self) -> Seq<u8> {
        name_field(encode_utf8(self.name)) + le_u16(self.preset) + le_u16(self.bank) + le_u16(
            self.pbag_idx,
        ) + le_u32(self.library) + le_u32(self.genre) + le_u32(self.morphology)
    }

    proof fn lemma_encoding_fills_width(self) {
    }
}

impl View for PresetHeader {
    type V = PresetHeaderView;

    open spec fn view(&self) -> PresetHeaderView {
        PresetHeaderView {
            name: self.name@,
            preset: self.preset,
            bank: self.bank,
            pbag_idx: self.pbag_idx,
            library: self.library,
            genre: self.genre,
            morphology: self.morphology,
        }
    }
}

impl Clone for PresetHeader {
    fn clone(&self) -> (copy: Self)
        ensures
            copy@ == self@,
    {
        PresetHeader {
            name: self.name.clone(),
            preset: self.preset,
            bank: self.bank,
            pbag_idx: self.pbag_idx,
            library: self.library,
            genre: self.genre,
            morphology: self.morphology,
        }
    }
}

impl Default for PresetHeader {
    fn default() -> (header: Self)
        ensures
            header@ == (PresetHeaderView {
                name: Seq::empty(),
                preset: 0,
                bank: 0,
                pbag_idx: 0,
                library: 0,
                genre: 0,
                morphology: 0,
            }),
    {
        PresetHeader {
            name: String::new(),
            preset: 0,
            bank: 0,
            pbag_idx: 0,
            library: 0,
            genre: 0,
            morphology: 0,
        }
    }
}

impl PresetHeader {
    /// Whether the name fits its field.
    pub fn is_encodable(&self) -> (fits: bool)
        ensures
            fits == self@.encodable(),
    {
        self.name.as_str().as_bytes().len() <= NAME_WIDTH
    }

    /// Encodes the header in 38 bytes.
    pub fn to_bytes(&self) -> (bytes: Vec<u8>)
        requires
            self@.encodable(),
        ensures
            bytes@ == self@.encoding(),
            bytes@.len() == PHDR_WIDTH,
    {
        let mut bytes: Vec<u8> = Vec::new();
        push_name(&mut bytes, self.name.as_str());
        push_u16(&mut bytes, self.preset);
        push_u16(&mut bytes, self.bank);
        push_u16(&mut bytes, self.pbag_idx);
        push_u32(&mut bytes, self.library);
        push_u32(&mut bytes, self.genre);
        push_u32(&mut bytes, self.morphology);
        bytes
    }
}

impl View for PresetHeaders {
    type V = Seq<PresetHeaderView>;

    open spec fn view(&self) -> Seq<PresetHeaderView> {
        Seq::new(self.contents@.len(), |i: int| self.contents@[i]@)
    }
}

impl Default for PresetHeaders {
    fn default() -> (list: Self)
        ensures
            list@ == Seq::<PresetHeaderView>::empty(),
    {
        Self::new()
    }
}

impl PresetHeaders {
    /// The empty list.
    pub fn new() -> (list: Self)
        ensures
            list@ == Seq::<PresetHeaderView>::empty(),
    {
        let list = Self { contents: Vec::new() };
        assert(list@ =~= Seq::<PresetHeaderView>::empty());
        list
    }

    /// Whether the list can be encoded: it holds a record, and the name of
    /// every record fits its field.
    pub fn is_encodable(&self) -> (fits: bool)
        ensures
            fits == list_encodable(self@),
    {
        if self.contents.len() == 0 {
            return false;
        }
        let mut i: usize = 0;
        while i < self.contents.len()
            invariant
                i <= self@.len(),
                forall|j: int| 0 <= j < i ==> (#[trigger] self@[j]).encodable(),
            decreases self@.len() - i,
        {
            assert(self@[i as int] == self.contents@[i as int]@);
            if !self.contents[i].is_encodable() {
                return false;
            }
            i += 1;
        }
        true
    }

    /// Wraps the encodings of the headers, laid end to end, in the chunk
    /// `phdr`. Its body is a whole number of records, at least one.
    pub fn to_riff(&self) -> (chunk: ChunkContents)
        requires
            list_encodable(self@),
        ensures
            chunk_model(chunk) == (ChunkModel::Data { id: phdr_id(), body: body(self@) }),
            body(self@).len() == PHDR_WIDTH * self@.len(),
            body(self@).len() > 0,
    {
        let mut bytes: Vec<u8> = Vec::new();
        let mut i: usize = 0;
        while i < self.contents.len()
            invariant
                i <= self@.len(),
                list_encodable(self@),
                bytes@ == body(self@.take(i as int)),
                bytes@.len() == PHDR_WIDTH * i,
            decreases self@.len() - i,
        {
            assert(self@[i as int] == self.contents@[i as int]@);
            let mut record = self.contents[i].to_bytes();
            proof {
                lemma_body_take(self@, i as int);
            }
            bytes.append(&mut record);
            i += 1;
        }
        assert(self@.take(i as int) =~= self@);
        data_chunk(['p' as u8, 'h' as u8, 'd' as u8, 'r' as u8], bytes)
    }
}

} // verus!
