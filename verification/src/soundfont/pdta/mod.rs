//! The preset data: nine lists of fixed-width records that refer to each
//! other by index.
//!
//! ```text
//! pdta
//! ├── phdr
//! │   └── pbag
//! │       ├── pmod
//! │       └── pgen
//! ├── inst
//! │   └── ibag
//! │       ├── imod
//! │       └── igen
//! └── shdr
//! ```

mod ibag;
mod igen;
mod imod;
mod inst;
mod pbag;
mod pgen;
mod phdr;
mod pmod;
mod shdr;

use super::bytes::{le_u16, push_i16, push_u16, twos_i16};
use super::chunk::{chunk_model, chunk_models, list_chunk, list_id, ChunkModel};
use super::record::{body, lemma_body_len, list_encodable};
use riff::ChunkContents;
use vstd::prelude::*;

pub use ibag::{ibag_id, InstBag, InstZone, IBAG_WIDTH};
pub use igen::{igen_id, InstGenList, InstrumentGen, IGEN_WIDTH};
pub use imod::{imod_id, InstModList, InstrumentMod, IMOD_WIDTH};
pub use inst::{inst_id, Instrument, InstrumentView, Instruments, INST_WIDTH};
pub use pbag::{pbag_id, PresetBag, PresetZone, PBAG_WIDTH};
pub use pgen::{pgen_id, PresetGen, PresetGenList, PGEN_WIDTH};
pub use phdr::{phdr_id, PresetHeader, PresetHeaderView, PresetHeaders, PHDR_WIDTH};
pub use pmod::{pmod_id, PresetMod, PresetModList, PMOD_WIDTH};
pub use shdr::{
    shdr_id, terminal_sample_name, SampleHeader, SampleHeaderView, SampleList, MIN_LOOP_MARGIN,
    MIN_LOOP_POINTS, MIN_SAMPLE_POINTS, SHDR_WIDTH,
};

verus! {

/// The 16-bit amount of a generator, in one of its three readings.
#[derive(Debug, Clone, Copy, PartialEq, Eq, Structural)]
pub enum GenAmountType {
    /// A range from `lo` to `hi`.
    Range { lo: u8, hi: u8 },
    /// A signed amount.
    Signed(i16),
    /// An unsigned amount.
    Unsigned(u16),
}

impl GenAmountType {
    /// The two bytes of this amount: a range as its low and high end, a
    /// number least significant byte first.
    pub open spec fn encoding(self) -> Seq<u8> {
        match self {
            GenAmountType::Range { lo, hi } => seq![lo, hi],
            GenAmountType::Signed(value) => le_u16(twos_i16(value)),
            GenAmountType::Unsigned(value) => le_u16(value),
        }
    }

    /// Encodes this amount in two bytes.
    pub fn to_bytes(&self) -> (bytes: Vec<u8>)
        ensures
            bytes@ == self.encoding(),
            bytes@.len() == 2,
    {
        let mut bytes: Vec<u8> = Vec::new();
        match self {
            GenAmountType::Range { lo, hi } => {
                bytes.push(*lo);
                bytes.push(*hi);
            },
            GenAmountType::Signed(value) => {
                push_i16(&mut bytes, *value);
            },
            GenAmountType::Unsigned(value) => {
                push_u16(&mut bytes, *value);
            },
        }
        assert(bytes@ =~= self.encoding());
        bytes
    }
}

/// The identifier of the preset data list.
pub open spec fn pdta_id() -> Seq<u8> {
    seq!['p' as u8, 'd' as u8, 't' as u8, 'a' as u8]
}

/// The nine lists of the preset data.
#[derive(Debug, Clone)]
pub struct PdtaList {
    /// Preset headers.
    pub phdr: PresetHeaders,
    /// Preset zones.
    pub pbag: PresetBag,
    /// Preset modulators.
    pub pmod: PresetModList,
    /// Preset generators.
    pub pgen: PresetGenList,
    /// Instruments.
    pub inst: Instruments,
    /// Instrument zones.
    pub ibag: InstBag,
    /// Instrument modulators.
    pub imod: InstModList,
    /// Instrument generators.
    pub igen: InstGenList,
    /// Sample headers.
    pub shdr: SampleList,
}

/// What the nine lists hold.
pub ghost struct PdtaView {
    pub phdr: Seq<PresetHeaderView>,
    pub pbag: Seq<PresetZone>,
    pub pmod: Seq<PresetMod>,
    pub pgen: Seq<PresetGen>,
    pub inst: Seq<InstrumentView>,
    pub ibag: Seq<InstZone>,
    pub imod: Seq<InstrumentMod>,
    pub igen: Seq<InstrumentGen>,
    pub shdr: Seq<SampleHeaderView>,
}

impl View for PdtaList {
    type V = PdtaView;

    open spec fn view(&self) -> PdtaView {
        PdtaView {
            phdr: self.phdr@,
            pbag: self.pbag@,
            pmod: self.pmod@,
            pgen: self.pgen@,
            inst: self.inst@,
            ibag: self.ibag@,
            imod: self.imod@,
            igen: self.igen@,
            shdr: self.shdr@,
        }
    }
}

impl Default for PdtaList {
    fn default() -> (list: Self)
        ensures
            list@ == PdtaView::empty(),
    {
        Self {
            phdr: PresetHeaders::new(),
            pbag: PresetBag::new(),
            pmod: PresetModList::new(),
            pgen: PresetGenList::new(),
            inst: Instruments::new(),
            ibag: InstBag::new(),
            imod: InstModList::new(),
            igen: InstGenList::new(),
            shdr: SampleList::new(),
        }
    }
}

impl PdtaView {
    /// Nine empty lists.
    pub open spec fn empty() -> PdtaView {
        PdtaView {
            phdr: Seq::empty(),
            pbag: Seq::empty(),
            pmod: Seq::empty(),
            pgen: Seq::empty(),
            inst: Seq::empty(),
            ibag: Seq::empty(),
            imod: Seq::empty(),
            igen: Seq::empty(),
            shdr: Seq::empty(),
        }
    }

    /// Every list holds a record, and every name fits its field.
    pub open spec fn encodable(self) -> bool {
        &&& list_encodable(self.phdr)
        &&& list_encodable(self.pbag)
        &&& list_encodable(self.pmod)
        &&& list_encodable(self.pgen)
        &&& list_encodable(self.inst)
        &&& list_encodable(self.ibag)
        &&& list_encodable(self.imod)
        &&& list_encodable(self.igen)
        &&& list_encodable(self.shdr)
    }

    /// The nine chunks of the lists, in the order of the file.
    pub open spec fn sub_chunks(self) -> Seq<ChunkModel> {
        seq![
            ChunkModel::Data { id: phdr_id(), body: body(self.phdr) },
            ChunkModel::Data { id: pbag_id(), body: body(self.pbag) },
            ChunkModel::Data { id: pmod_id(), body: body(self.pmod) },
            ChunkModel::Data { id: pgen_id(), body: body(self.pgen) },
            ChunkModel::Data { id: inst_id(), body: body(self.inst) },
            ChunkModel::Data { id: ibag_id(), body: body(self.ibag) },
            ChunkModel::Data { id: imod_id(), body: body(self.imod) },
            ChunkModel::Data { id: igen_id(), body: body(self.igen) },
            ChunkModel::Data { id: shdr_id(), body: body(self.shdr) },
        ]
    }

    /// The list `pdta` of the nine chunks.
    pub open spec fn riff_model(self) -> ChunkModel {
        ChunkModel::Children { id: list_id(), form: pdta_id(), children: self.sub_chunks() }
    }
}

/// Every chunk of the preset data is a whole number of records of its
/// list's width, and holds at least one: 38 bytes for a preset header, 22 for
/// an instrument, 46 for a sample header, 4 for each of the others.
pub proof fn lemma_chunks_hold_whole_records(lists: PdtaView)
    requires
        lists.encodable(),
    ensures
        body(lists.phdr).len() == PHDR_WIDTH * lists.phdr.len() > 0,
        body(lists.pbag).len() == PBAG_WIDTH * lists.pbag.len() > 0,
        body(lists.pmod).len() == PMOD_WIDTH * lists.pmod.len() > 0,
        body(lists.pgen).len() == PGEN_WIDTH * lists.pgen.len() > 0,
        body(lists.inst).len() == INST_WIDTH * lists.inst.len() > 0,
        body(lists.ibag).len() == IBAG_WIDTH * lists.ibag.len() > 0,
        body(lists.imod).len() == IMOD_WIDTH * lists.imod.len() > 0,
        body(lists.igen).len() == IGEN_WIDTH * lists.igen.len() > 0,
        body(lists.shdr).len() == SHDR_WIDTH * lists.shdr.len() > 0,
{
    lemma_body_len(lists.phdr);
    lemma_body_len(lists.pbag);
    lemma_body_len(lists.pmod);
    lemma_body_len(lists.pgen);
    lemma_body_len(lists.inst);
    lemma_body_len(lists.ibag);
    lemma_body_len(lists.imod);
    lemma_body_len(lists.igen);
    lemma_body_len(lists.shdr);
}

impl PdtaList {
    /// Whether the lists can be encoded: every list holds a record, and
    /// every name fits its field.
    pub fn is_encodable(&self) -> (fits: bool)
        ensures
            fits == self@.encodable(),
    {
        self.phdr.is_encodable() && self.pbag.contents.len() > 0 && self.pmod.contents.len() > 0
            && self.pgen.contents.len() > 0 && self.inst.is_encodable()
            && self.ibag.contents.len() > 0 && self.imod.contents.len() > 0
            && self.igen.contents.len() > 0 && self.shdr.is_encodable()
    }

    /// Wraps the nine lists, each in its chunk, in the list `pdta`.
    pub fn to_riff(&self) -> (chunk: ChunkContents)
        requires
            self@.encodable(),
        ensures
            chunk_model(chunk) == self@.riff_model(),
    {
        let mut contents: Vec<ChunkContents> = Vec::new();
        contents.push(self.phdr.to_riff());
        contents.push(self.pbag.to_riff());
        contents.push(self.pmod.to_riff());
        contents.push(self.pgen.to_riff());
        contents.push(self.inst.to_riff());
        contents.push(self.ibag.to_riff());
        contents.push(self.imod.to_riff());
        contents.push(self.igen.to_riff());
        contents.push(self.shdr.to_riff());
        assert(chunk_models(contents@) =~= self@.sub_chunks());
        list_chunk(['p' as u8, 'd' as u8, 't' as u8, 'a' as u8], contents)
    }
}

} // verus!
