//! The preset zones.

use crate::soundfont::bytes::{le_u16, push_u16};
use crate::soundfont::chunk::{chunk_model, data_chunk, ChunkModel};
use crate::soundfont::record::{body, lemma_body_take, list_encodable, Record};
use riff::ChunkContents;
use vstd::prelude::*;

verus! {

/// Width in bytes of an encoded preset zone.
pub const PBAG_WIDTH: usize = 4;

/// The identifier of the preset zone chunk.
pub open spec fn pbag_id() -> Seq<u8> {
    seq!['p' as u8, 'b' as u8, 'a' as u8, 'g' as u8]
}

/// The list of preset zones, closed by a terminal zone.
#[derive(Debug, Clone)]
pub struct PresetBag {
    pub contents: Vec<PresetZone>,
}

/// A zone of a preset: where its generators and its modulators begin.
#[derive(Debug, Clone, Copy, PartialEq, Eq, Structural)]
pub struct PresetZone {
    /// Index of the zone's first generator in the preset generator list.
    pub gen_idx: u16,
    /// Index of the zone's first modulator in the preset modulator list.
    pub mod_idx: u16,
}

impl Record for PresetZone {
    open spec fn width() -> nat {
        PBAG_WIDTH as nat
    }

    open spec fn encodable(self) -> bool {
        true
    }

    /// The four bytes of the zone: generator index, then modulator index.
    open spec fn encoding(self) -> Seq<u8> {
        le_u16(self.gen_idx) + le_u16(self.mod_idx)
    }

    proof fn lemma_encoding_fills_width(self) {
    }
}

impl PresetZone {
    /// A zone whose generators begin at `gen_idx` and whose modulators begin
    /// at `mod_idx`.
    pub fn new(gen_idx: u16, mod_idx: u16) -> (zone: Self)
        ensures
            zone == (Self { gen_idx, mod_idx }),
    {
        Self { gen_idx, mod_idx }
    }

    /// Encodes the zone in four bytes.
    pub fn to_bytes(&self) -> (bytes: Vec<u8>)
        ensures
            bytes@ == self.encoding(),
            bytes@.len() == PBAG_WIDTH,
    {
        let mut bytes: Vec<u8> = Vec::new();
        push_u16(&mut bytes, self.gen_idx);
        push_u16(&mut bytes, self.mod_idx);
        bytes
    }

    /// The zone with both indices zero.
    pub fn terminal() -> (zone: Self)
        ensures
            zone == (Self { gen_idx: 0, mod_idx: 0 }),
    {
        Self { gen_idx: 0, mod_idx: 0 }
    }
}

impl View for PresetBag {
    type V = Seq<PresetZone>;

    open spec fn view(&self) -> Seq<PresetZone> {
        self.contents@
    }
}

impl Default for PresetBag {
    fn default() -> (list: Self)
        ensures
            list@ == Seq::<PresetZone>::empty(),
    {
        Self::new()
    }
}

impl PresetBag {
    /// The empty list.
    pub fn new() -> (list: Self)
        ensures
            list@ == Seq::<PresetZone>::empty(),
    {
        Self { contents: Vec::new() }
    }

    /// Wraps the encodings of the zones, laid end to end, in the chunk
    /// `pbag`. Its body is a whole number of records, at least one.
    pub fn to_riff(&self) -> (chunk: ChunkContents)
        requires
            list_encodable(self@),
        ensures
            chunk_model(chunk) == (ChunkModel::Data { id: pbag_id(), body: body(self@) }),
            body(self@).len() == PBAG_WIDTH * self@.len(),
            body(self@).len() > 0,
    {
        let mut bytes: Vec<u8> = Vec::new();
        let mut i: usize = 0;
        while i < self.contents.len()
            invariant
                i <= self@.len(),
                bytes@ == body(self@.take(i as int)),
                bytes@.len() == PBAG_WIDTH * i,
            decreases self@.len() - i,
        {
            let mut record = self.contents[i].to_bytes();
            proof {
                lemma_body_take(self@, i as int);
            }
            bytes.append(&mut record);
            i += 1;
        }
        assert(self@.take(i as int) =~= self@);
        data_chunk(['p' as u8, 'b' as u8, 'a' as u8, 'g' as u8], bytes)
    }
}

} // verus!
