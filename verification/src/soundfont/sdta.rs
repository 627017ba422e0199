//! The sample data: the points of every sample in one buffer.

use super::bytes::{le_u16, push_i16, twos_i16};
use super::chunk::{chunk_model, chunk_models, data_chunk, list_chunk, list_id, ChunkModel};
use riff::ChunkContents;
use vstd::prelude::*;

verus! {

/// The identifier of the sample data list.
pub open spec fn sdta_id() -> Seq<u8> {
    seq!['s' as u8, 'd' as u8, 't' as u8, 'a' as u8]
}

/// The identifier of the chunk of 16-bit points.
pub open spec fn smpl_id() -> Seq<u8> {
    seq!['s' as u8, 'm' as u8, 'p' as u8, 'l' as u8]
}

/// The identifier of the chunk of the 24-bit extension.
pub open spec fn sm24_id() -> Seq<u8> {
    seq!['s' as u8, 'm' as u8, '2' as u8, '4' as u8]
}

/// The points of `points`, two bytes each, least significant byte first.
pub open spec fn points_encoding(points: Seq<i16>) -> Seq<u8>
    decreases points.len(),
{
    if points.len() == 0 {
        Seq::empty()
    } else {
        points_encoding(points.drop_last()) + le_u16(twos_i16(points.last()))
    }
}

/// Every point fills two bytes.
pub proof fn lemma_points_encoding_len(points: Seq<i16>)
    ensures
        points_encoding(points).len() == 2 * points.len(),
    decreases points.len(),
{
    if points.len() > 0 {
        lemma_points_encoding_len(points.drop_last());
    }
}

/// The sample buffer.
#[derive(Debug, Clone)]
pub struct SdtaList {
    /// The 16-bit points.
    pub smpl: Vec<i16>,
    /// The low bytes of 24-bit points, if there are any.
    pub sm24: Option<Vec<u8>>,
}

/// What the sample buffer holds.
pub ghost struct SdtaView {
    pub smpl: Seq<i16>,
    pub sm24: Option<Seq<u8>>,
}

impl View for SdtaList {
    type V = SdtaView;

    open spec fn view(&self) -> SdtaView {
        SdtaView {
            smpl: self.smpl@,
            sm24: match self.sm24 {
                Some(extension) => Some(extension@),
                None => None,
            },
        }
    }
}

impl SdtaView {
    /// No points and no extension.
    pub open spec fn empty() -> SdtaView {
        SdtaView { smpl: Seq::empty(), sm24: None }
    }

    /// The chunks of the buffer: `smpl`, then `sm24` if there is an
    /// extension.
    pub open spec fn sub_chunks(self) -> Seq<ChunkModel> {
        let smpl = ChunkModel::Data { id: smpl_id(), body: points_encoding(self.smpl) };
        match self.sm24 {
            Some(extension) => seq![smpl, ChunkModel::Data { id: sm24_id(), body: extension }],
            None => seq![smpl],
        }
    }

    /// The list `sdta` of the chunks of the buffer.
    pub open spec fn riff_model(self) -> ChunkModel {
        ChunkModel::Children { id: list_id(), form: sdta_id(), children: self.sub_chunks() }
    }
}

impl Default for SdtaList {
    fn default() -> (list: Self)
        ensures
            list@ == SdtaView::empty(),
    {
        Self { smpl: Vec::new(), sm24: None }
    }
}

impl SdtaList {
    /// The buffer of the points `smpl` and the extension `sm24`.
    pub fn new(smpl: Vec<i16>, sm24: Option<Vec<u8>>) -> (list: Self)
        ensures
            list.smpl == smpl,
            list.sm24 == sm24,
    {
        Self { smpl, sm24 }
    }

    /// Wraps the points, two bytes each, in the chunk `smpl`, and that chunk
    /// and the extension's in the list `sdta`.
    pub fn to_riff(&self) -> (chunk: ChunkContents)
        ensures
            chunk_model(chunk) == self@.riff_model(),
            points_encoding(self.smpl@).len() == 2 * self.smpl@.len(),
    {
        let mut smpl_bytes: Vec<u8> = Vec::new();
        let mut i: usize = 0;
        while i < self.smpl.len()
            invariant
                i <= self.smpl@.len(),
                smpl_bytes@ == points_encoding(self.smpl@.take(i as int)),
            decreases self.smpl@.len() - i,
        {
            push_i16(&mut smpl_bytes, self.smpl[i]);
            i += 1;
            assert(self.smpl@.take(i as int).drop_last() =~= self.smpl@.take(i - 1));
        }
        assert(self.smpl@.take(i as int) =~= self.smpl@);
        proof {
            lemma_points_encoding_len(self.smpl@);
        }
        let mut contents: Vec<ChunkContents> = Vec::new();
        contents.push(data_chunk(['s' as u8, 'm' as u8, 'p' as u8, 'l' as u8], smpl_bytes));
        match &self.sm24 {
            Some(extension) => {
                let copy = extension.clone();
                assert(copy@ =~= extension@);
                contents.push(data_chunk(['s' as u8, 'm' as u8, '2' as u8, '4' as u8], copy));
            },
            None => {},
        }
        assert(chunk_models(contents@) =~= self@.sub_chunks());
        list_chunk(['s' as u8, 'd' as u8, 't' as u8, 'a' as u8], contents)
    }
}

} // verus!
