//! RIFF chunks, built with the `riff` crate.
//!
//! The chunk tree of a file is a `riff::ChunkContents`. The proofs see
//! nothing inside such a value; they speak of its `chunk_model`. What is
//! said here of the crate is believed, not proved.

use riff::ChunkContents;
use vstd::prelude::*;

verus! {

/// A chunk of a RIFF file: its identifier, and either its bytes or its form
/// type and the chunks that it holds.
pub ghost enum ChunkModel {
    /// A chunk holding raw bytes.
    Data { id: Seq<u8>, body: Seq<u8> },
    /// A chunk holding a form type and further chunks.
    Children { id: Seq<u8>, form: Seq<u8>, children: Seq<ChunkModel> },
}

/// `riff::ChunkContents`, carried through as it is.
#[verifier::external_type_specification]
#[verifier::external_body]
pub struct ExChunkContents(riff::ChunkContents);

/// What a `riff::ChunkContents` holds: for its variant `Data` the
/// identifier and the bytes, for its variant `Children` the identifier, the
/// form type and what each of the chunks below holds.
pub uninterp spec fn chunk_model(chunk: ChunkContents) -> ChunkModel;

/// The models of `chunks`, in order.
pub open spec fn chunk_models(chunks: Seq<ChunkContents>) -> Seq<ChunkModel> {
    chunks.map_values(|c: ChunkContents| chunk_model(c))
}

/// The identifier `RIFF`.
pub open spec fn riff_id() -> Seq<u8> {
    seq![0x52u8, 0x49u8, 0x46u8, 0x46u8]
}

/// The identifier `LIST`.
pub open spec fn list_id() -> Seq<u8> {
    seq![0x4Cu8, 0x49u8, 0x53u8, 0x54u8]
}

/// Builds `riff::ChunkContents::Data` from the identifier `id` and the bytes
/// `body`; the chunk holds exactly those.
#[verifier::external_body]
pub(crate) fn data_chunk(id: [u8; 4], body: Vec<u8>) -> (chunk: ChunkContents)
    ensures
        chunk_model(chunk) == (ChunkModel::Data { id: id@, body: body@ }),
{
    ChunkContents::Data(riff::ChunkId { value: id }, body)
}

/// Builds `riff::ChunkContents::Children` under `riff::LIST_ID`, which is the
/// identifier `LIST`, with the form type `form` and the chunks `children`.
#[verifier::external_body]
pub(crate) fn list_chunk(form: [u8; 4], children: Vec<ChunkContents>) -> (chunk: ChunkContents)
    ensures
        chunk_model(chunk) == (ChunkModel::Children {
            id: list_id(),
            form: form@,
            children: chunk_models(children@),
        }),
{
    ChunkContents::Children(riff::LIST_ID, riff::ChunkId { value: form }, children)
}

/// Builds `riff::ChunkContents::Children` under `riff::RIFF_ID`, which is the
/// identifier `RIFF`, with the form type `form` and the chunks `children`.
#[verifier::external_body]
pub(crate) fn riff_chunk(form: [u8; 4], children: Vec<ChunkContents>) -> (chunk: ChunkContents)
    ensures
        chunk_model(chunk) == (ChunkModel::Children {
            id: riff_id(),
            form: form@,
            children: chunk_models(children@),
        }),
{
    ChunkContents::Children(riff::RIFF_ID, riff::ChunkId { value: form }, children)
}

/// The models of three chunks are the three models.
pub(crate) proof fn lemma_chunk_models_of_three(chunks: Seq<ChunkContents>)
    requires
        chunks.len() == 3,
    ensures
        chunk_models(chunks) == seq![
            chunk_model(chunks[0]),
            chunk_model(chunks[1]),
            chunk_model(chunks[2]),
        ],
{
    assert(chunk_models(chunks) =~= seq![
        chunk_model(chunks[0]),
        chunk_model(chunks[1]),
        chunk_model(chunks[2]),
    ]);
}

} // verus!
