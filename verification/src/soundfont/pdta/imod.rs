//! The instrument modulators.

use crate::soundfont::bytes::{zeros};
use crate::soundfont::chunk::{chunk_model, data_chunk, ChunkModel};
use crate::soundfont::record::{body, lemma_body_take, list_encodable, Record};
use riff::ChunkContents;
use vstd::prelude::*;

verus! {

/// Width in bytes of an encoded instrument modulator.
pub const IMOD_WIDTH: usize = 4;

/// The identifier of the instrument modulator chunk.
pub open spec fn imod_id() -> Seq<u8> {
    seq!['i' as u8, 'm' as u8, 'o' as u8, 'd' as u8]
}

/// The list of instrument modulators. No zone has modulators, so the list holds
/// its terminal record and nothing else.
#[derive(Debug, Clone)]
pub struct InstModList {
    pub contents: Vec<InstrumentMod>,
}

/// A instrument modulator. It has no fields: the only one there is closes the
/// list.
#[derive(Debug, Clone, Copy, PartialEq, Eq, Structural)]
pub struct InstrumentMod {}

impl Record for InstrumentMod {
    open spec fn width() -> nat {
        IMOD_WIDTH as nat
    }

    open spec fn encodable(self) -> bool {
        true
    }

    /// Four zero bytes.
    open spec fn encoding(self) -> Seq<u8> {
        zeros(IMOD_WIDTH as nat)
    }

    proof fn lemma_encoding_fills_width(self) {
    }
}

impl InstrumentMod {
    /// Encodes the modulator in four bytes.
    pub fn to_bytes(&self) -> (bytes: Vec<u8>)
        ensures
            bytes@ == self.encoding(),
            bytes@.len() == IMOD_WIDTH,
    {
        let mut bytes: Vec<u8> = Vec::new();
        bytes.push(0);
        bytes.push(0);
        bytes.push(0);
        bytes.push(0);
        assert(bytes@ =~= self.encoding());
        bytes
    }

    /// The modulator that closes the list.
    pub fn terminal() -> (modulator: Self)
        ensures
            modulator == (Self {}),
    {
        Self {}
    }
}

impl View for InstModList {
    type V = Seq<InstrumentMod>;

    open spec fn view(&self) -> Seq<InstrumentMod> {
        self.contents@
    }
}

impl Default for InstModList {
    fn default() -> (list: Self)
        ensures
            list@ == Seq::<InstrumentMod>::empty(),
    {
        Self::new()
    }
}

impl InstModList {
    /// The empty list.
    pub fn new() -> (list: Self)
        ensures
            list@ == Seq::<InstrumentMod>::empty(),
    {
        Self { contents: Vec::new() }
    }

    /// Wraps the encodings of the modulators, laid end to end, in the chunk
    /// `imod`. Its body is a whole number of records, at least one.
    pub fn to_riff(&self) -> (chunk: ChunkContents)
        requires
            list_encodable(self@),
        ensures
            chunk_model(chunk) == (ChunkModel::Data { id: imod_id(), body: body(self@) }),
            body(self@).len() == IMOD_WIDTH * self@.len(),
            body(self@).len() > 0,
    {
        let mut bytes: Vec<u8> = Vec::new();
        let mut i: usize = 0;
        while i < self.contents.len()
            invariant
                i <= self@.len(),
                bytes@ == body(self@.take(i as int)),
                bytes@.len() == IMOD_WIDTH * i,
            decreases self@.len() - i,
        {
            let mut record = self.contents[i].to_bytes();
            proof {
                lemma_body_take(self@, i as int);
            }
            bytes.append(&mut record);
            i += 1;
        }
        assert(self@.take(i as int) =~= self@);
        data_chunk(['i' as u8, 'm' as u8, 'o' as u8, 'd' as u8], bytes)
    }
}

} // verus!
