//! The preset generators.

use super::GenAmountType;
use crate::soundfont::bytes::{le_u16, push_u16};
use crate::soundfont::chunk::{chunk_model, data_chunk, ChunkModel};
use crate::soundfont::record::{body, lemma_body_take, list_encodable, Record};
use riff::ChunkContents;
use vstd::prelude::*;

verus! {

/// Width in bytes of an encoded preset generator.
pub const PGEN_WIDTH: usize = 4;

/// The identifier of the preset generator chunk.
pub open spec fn pgen_id() -> Seq<u8> {
    seq!['p' as u8, 'g' as u8, 'e' as u8, 'n' as u8]
}

/// The list of preset generators, closed by a terminal generator.
#[derive(Debug, Clone)]
pub struct PresetGenList {
    pub contents: Vec<PresetGen>,
}

/// A generator of a preset zone: an operator and its amount.
#[derive(Debug, Clone, Copy, PartialEq, Eq, Structural)]
pub struct PresetGen {
    /// The operator's code.
    pub sf_gen_oper: u16,
    /// The amount, read as the operator asks.
    pub gen_amount: GenAmountType,
}

impl Record for PresetGen {
    open spec fn width() -> nat {
        PGEN_WIDTH as nat
    }

    open spec fn encodable(self) -> bool {
        true
    }

    /// The four bytes of the generator: operator, then amount.
    open spec fn encoding(self) -> Seq<u8> {
        le_u16(self.sf_gen_oper) + self.gen_amount.encoding()
    }

    proof fn lemma_encoding_fills_width(self) {
    }
}

impl PresetGen {
    /// Encodes the generator in four bytes.
    pub fn to_bytes(&self) -> (bytes: Vec<u8>)
        ensures
            bytes@ == self.encoding(),
            bytes@.len() == PGEN_WIDTH,
    {
        let mut bytes: Vec<u8> = Vec::new();
        push_u16(&mut bytes, self.sf_gen_oper);
        let mut amount = self.gen_amount.to_bytes();
        bytes.append(&mut amount);
        bytes
    }

    /// The generator with operator zero and amount zero.
    pub fn terminal() -> (generator: Self)
        ensures
            generator == (Self { sf_gen_oper: 0, gen_amount: GenAmountType::Signed(0) }),
    {
        Self { sf_gen_oper: 0, gen_amount: GenAmountType::Signed(0) }
    }
}

impl View for PresetGenList {
    type V = Seq<PresetGen>;

    open spec fn view(&self) -> Seq<PresetGen> {
        self.contents@
    }
}

impl Default for PresetGenList {
    fn default() -> (list: Self)
        ensures
            list@ == Seq::<PresetGen>::empty(),
    {
        Self::new()
    }
}

impl PresetGenList {
    /// The empty list.
    pub fn new() -> (list: Self)
        ensures
            list@ == Seq::<PresetGen>::empty(),
    {
        Self { contents: Vec::new() }
    }

    /// Wraps the encodings of the generators, laid end to end, in the chunk
    /// `pgen`. Its body is a whole number of records, at least one.
    pub fn to_riff(&self) -> (chunk: ChunkContents)
        requires
            list_encodable(self@),
        ensures
            chunk_model(chunk) == (ChunkModel::Data { id: pgen_id(), body: body(self@) }),
            body(self@).len() == PGEN_WIDTH * self@.len(),
            body(self@).len() > 0,
    {
        let mut bytes: Vec<u8> = Vec::new();
        let mut i: usize = 0;
        while i < self.contents.len()
            invariant
                i <= self@.len(),
                bytes@ == body(self@.take(i as int)),
                bytes@.len() == PGEN_WIDTH * i,
            decreases self@.len() - i,
        {
            let mut record = self.contents[i].to_bytes();
            proof {
                lemma_body_take(self@, i as int);
            }
            bytes.append(&mut record);
            i += 1;
        }
        assert(self@.take(i as int) =~= self@);
        data_chunk(['p' as u8, 'g' as u8, 'e' as u8, 'n' as u8], bytes)
    }
}

} // verus!
