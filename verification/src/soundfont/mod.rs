//! The SoundFont 2 data model and its binary encoding.

pub mod bytes;
pub mod chunk;
mod error;
pub mod info;
pub mod pdta;
pub mod record;
pub mod sdta;
pub mod text;

use chunk::{chunk_model, lemma_chunk_models_of_three, riff_chunk, riff_id, ChunkModel};
use info::InfoList;
use pdta::PdtaList;
use riff::ChunkContents;
use sdta::SdtaList;
use vstd::prelude::*;
use vstd::string::StrSliceExecFns;
use vstd::utf8::encode_utf8;

pub use error::SoundfontError;

verus! {

/// The form type of a SoundFont file.
pub open spec fn sfbk_id() -> Seq<u8> {
    seq!['s' as u8, 'f' as u8, 'b' as u8, 'k' as u8]
}

/// The bytes of `text`, and one zero byte more where their number is odd.
pub open spec fn text_encoding(text: Seq<char>) -> Seq<u8> {
    let raw = encode_utf8(text);
    if raw.len() % 2 != 0 {
        raw.push(0u8)
    } else {
        raw
    }
}

/// Converts a string to bytes, padded with a zero byte to an even length.
pub fn string_to_bytes(value: &String) -> (bytes: Vec<u8>)
    ensures
        bytes@ == text_encoding(value@),
        bytes@.len() % 2 == 0,
{
    let mut bytes = value.as_str().as_bytes_vec();
    if bytes.len() % 2 != 0 {
        bytes.push(0);
    }
    bytes
}

/// A SoundFont 2 bank: metadata, sample data and preset data.
#[derive(Debug)]
pub struct SoundFont2 {
    pub info: InfoList,
    pub sdta: SdtaList,
    pub pdta: PdtaList,
}

/// What a bank holds.
pub ghost struct SoundFont2View {
    pub info: info::InfoListView,
    pub sdta: sdta::SdtaView,
    pub pdta: pdta::PdtaView,
}

impl View for SoundFont2 {
    type V = SoundFont2View;

    open spec fn view(&self) -> SoundFont2View {
        SoundFont2View { info: self.info@, sdta: self.sdta@, pdta: self.pdta@ }
    }
}

impl SoundFont2View {
    /// The chunk tree of the file: the chunk `RIFF` of form `sfbk`, which
    /// holds the lists `INFO`, `sdta` and `pdta` in this order.
    pub open spec fn riff_model(self) -> ChunkModel {
        ChunkModel::Children {
            id: riff_id(),
            form: sfbk_id(),
            children: seq![self.info.riff_model(), self.sdta.riff_model(), self.pdta.riff_model()],
        }
    }
}

impl Default for SoundFont2 {
    fn default() -> (font: Self)
        ensures
            font@ == (SoundFont2View {
                info: info::InfoListView::initial(),
                sdta: sdta::SdtaView::empty(),
                pdta: pdta::PdtaView::empty(),
            }),
    {
        Self { info: InfoList::default(), sdta: SdtaList::default(), pdta: PdtaList::default() }
    }
}

impl SoundFont2 {
    /// The bank of the three parts.
    pub fn new(info: InfoList, sdta: SdtaList, pdta: PdtaList) -> (font: Self)
        ensures
            font.info == info,
            font.sdta == sdta,
            font.pdta == pdta,
    {
        Self { info, sdta, pdta }
    }

    /// Lays the bank out as the chunk tree of a SoundFont file.
    pub fn to_riff(&self) -> (chunk: ChunkContents)
        requires
            self@.pdta.encodable(),
        ensures
            chunk_model(chunk) == self@.riff_model(),
    {
        let info = self.info.to_riff();
        let sdta = self.sdta.to_riff();
        let pdta = self.pdta.to_riff();
        let mut contents: Vec<ChunkContents> = Vec::new();
        contents.push(info);
        contents.push(sdta);
        contents.push(pdta);
        proof {
            lemma_chunk_models_of_three(contents@);
        }
        riff_chunk(['s' as u8, 'f' as u8, 'b' as u8, 'k' as u8], contents)
    }
}

} // verus!
