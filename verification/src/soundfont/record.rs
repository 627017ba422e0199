//! Records of fixed width, and lists of them laid end to end.

use super::bytes::{concat, lemma_concat_len, lemma_concat_take};
use vstd::prelude::*;

verus! {

/// What a record of one of the lists of the preset data holds, with its
/// encoding in a fixed number of bytes.
pub trait Record: Sized {
    /// Width in bytes of an encoded record.
    spec fn width() -> nat;

    /// Whether the record can be encoded: its name, if it has one, fits the
    /// name field.
    spec fn encodable(self) -> bool;

    /// The bytes of the record.
    spec fn encoding(self) -> Seq<u8>;

    /// A record that can be encoded fills its width.
    proof fn lemma_encoding_fills_width(self)
        requires
            self.encodable(),
        ensures
            self.encoding().len() == Self::width(),
    ;
}

/// The encodings of the records `records`, laid end to end.
pub open spec fn body<R: Record>(records: Seq<R>) -> Seq<u8> {
    concat(Seq::new(records.len(), |i: int| records[i].encoding()))
}

/// Every record can be encoded.
pub open spec fn all_encodable<R: Record>(records: Seq<R>) -> bool {
    forall|i: int| 0 <= i < records.len() ==> (#[trigger] records[i]).encodable()
}

/// The list can be encoded: it holds a record, and every record can be
/// encoded.
pub open spec fn list_encodable<R: Record>(records: Seq<R>) -> bool {
    records.len() > 0 && all_encodable(records)
}

/// One record more appends its encoding.
pub proof fn lemma_body_take<R: Record>(records: Seq<R>, n: int)
    requires
        0 <= n < records.len(),
    ensures
        body(records.take(n + 1)) == body(records.take(n)) + records[n].encoding(),
{
    let all = Seq::new(records.len(), |i: int| records[i].encoding());
    lemma_concat_take(all, n);
    assert(all.take(n) =~= Seq::new(records.take(n).len(), |i: int| records.take(n)[i].encoding()));
    assert(all.take(n + 1) =~= Seq::new(
        records.take(n + 1).len(),
        |i: int| records.take(n + 1)[i].encoding(),
    ));
}

/// Records that can be encoded fill a whole number of record widths.
pub proof fn lemma_body_len<R: Record>(records: Seq<R>)
    requires
        all_encodable(records),
    ensures
        body(records).len() == R::width() * records.len(),
{
    let all = Seq::new(records.len(), |i: int| records[i].encoding());
    assert forall|i: int| 0 <= i < all.len() implies (#[trigger] all[i]).len() == R::width() by {
        records[i].lemma_encoding_fills_width();
    }
    lemma_concat_len(all, R::width());
    assert(records.len() * R::width() == R::width() * records.len()) by (nonlinear_arith);
}

} // verus!
