//! Little-endian integer fields and fixed-width name fields.

use vstd::prelude::*;
use vstd::string::StrSliceExecFns;
use vstd::utf8::encode_utf8;

verus! {

/// Width in bytes of a record's name field.
pub const NAME_WIDTH: usize = 20;

/// The two bytes of `x`, least significant first.
pub open spec fn le_u16(x: u16) -> Seq<u8> {
    seq![(x % 256) as u8, (x / 256) as u8]
}

/// The four bytes of `x`, least significant first.
pub open spec fn le_u32(x: u32) -> Seq<u8> {
    seq![
        (x % 256) as u8,
        (x / 256 % 256) as u8,
        (x / 65536 % 256) as u8,
        (x / 16777216) as u8,
    ]
}

/// The two's complement of `x` as an unsigned 16-bit value.
pub open spec fn twos_i16(x: i16) -> u16 {
    if x >= 0 {
        x as u16
    } else {
        (x + 65536) as u16
    }
}

/// The two's complement of `x` as a byte.
pub open spec fn twos_i8(x: i8) -> u8 {
    if x >= 0 {
        x as u8
    } else {
        (x + 256) as u8
    }
}

/// `n` zero bytes.
pub open spec fn zeros(n: nat) -> Seq<u8> {
    Seq::new(n, |i: int| 0u8)
}

/// `name` followed by as many zero bytes as fill the name field.
pub open spec fn name_field(name: Seq<u8>) -> Seq<u8> {
    name + zeros((NAME_WIDTH - name.len()) as nat)
}

/// Appends the two bytes of `x` to `out`, least significant first.
pub fn push_u16(out: &mut Vec<u8>, x: u16)
    ensures
        final(out)@ == old(out)@ + le_u16(x),
{
    out.push((x % 256) as u8);
    out.push((x / 256) as u8);
    assert(out@ =~= old(out)@ + le_u16(x));
}

/// Appends the four bytes of `x` to `out`, least significant first.
pub fn push_u32(out: &mut Vec<u8>, x: u32)
    ensures
        final(out)@ == old(out)@ + le_u32(x),
{
    out.push((x % 256) as u8);
    out.push((x / 256 % 256) as u8);
    out.push((x / 65536 % 256) as u8);
    out.push((x / 16777216) as u8);
    assert(out@ =~= old(out)@ + le_u32(x));
}

/// Appends the two's complement of `x` to `out`, least significant byte first.
pub fn push_i16(out: &mut Vec<u8>, x: i16)
    ensures
        final(out)@ == old(out)@ + le_u16(twos_i16(x)),
{
    let u: u16 = if x >= 0 {
        x as u16
    } else {
        (x as i32 + 65536) as u16
    };
    push_u16(out, u);
}

/// Appends the two's complement of `x` to `out`.
pub fn push_i8(out: &mut Vec<u8>, x: i8)
    ensures
        final(out)@ == old(out)@.push(twos_i8(x)),
{
    let u: u8 = if x >= 0 {
        x as u8
    } else {
        (x as i16 + 256) as u8
    };
    out.push(u);
}

/// The parts of `parts` laid end to end.
pub open spec fn concat(parts: Seq<Seq<u8>>) -> Seq<u8>
    decreases parts.len(),
{
    if parts.len() == 0 {
        Seq::empty()
    } else {
        concat(parts.drop_last()) + parts.last()
    }
}

/// Laying out one part more appends that part.
pub proof fn lemma_concat_take(parts: Seq<Seq<u8>>, n: int)
    requires
        0 <= n < parts.len(),
    ensures
        concat(parts.take(n + 1)) == concat(parts.take(n)) + parts[n],
{
    assert(parts.take(n + 1).drop_last() =~= parts.take(n));
}

/// Parts that are all `width` bytes long fill `width` bytes each.
pub proof fn lemma_concat_len(parts: Seq<Seq<u8>>, width: nat)
    requires
        forall|i: int| 0 <= i < parts.len() ==> (#[trigger] parts[i]).len() == width,
    ensures
        concat(parts).len() == parts.len() * width,
    decreases parts.len(),
{
    if parts.len() > 0 {
        lemma_concat_len(parts.drop_last(), width);
        assert(concat(parts).len() == (parts.len() - 1) * width + width);
        assert((parts.len() - 1) * width + width == parts.len() * width) by (nonlinear_arith);
    }
}

/// Appends the bytes of `name` to `out`, then zero bytes up to the width of
/// the name field.
pub fn push_name(out: &mut Vec<u8>, name: &str)
    requires
        encode_utf8(name@).len() <= NAME_WIDTH,
    ensures
        final(out)@ == old(out)@ + name_field(encode_utf8(name@)),
{
    let mut raw = name.as_bytes_vec();
    let ghost bytes = raw@;
    let mut filled: usize = raw.len();
    out.append(&mut raw);
    assert(zeros(0) =~= Seq::<u8>::empty());
    while filled < NAME_WIDTH
        invariant
            bytes.len() <= filled <= NAME_WIDTH,
            bytes == encode_utf8(name@),
            out@ == old(out)@ + bytes + zeros((filled - bytes.len()) as nat),
        decreases NAME_WIDTH - filled,
    {
        out.push(0);
        filled += 1;
        assert(zeros((filled - bytes.len()) as nat) =~= zeros(
            (filled - 1 - bytes.len()) as nat,
        ).push(0u8));
    }
}

} // verus!
