use vstd::prelude::*;
use crate::platform::ByteOrder;

verus! {

/// The value of the two bytes of `b` at `off`, read in `order`.
pub open spec fn u16_at(order: ByteOrder, b: Seq<u8>, off: int) -> int {
    match order {
        ByteOrder::Little => b[off] + 256 * b[off + 1],
        ByteOrder::Big => 256 * b[off] + b[off + 1],
    }
}

/// The value of the four bytes of `b` at `off`, read in `order`.
pub open spec fn u32_at(order: ByteOrder, b: Seq<u8>, off: int) -> int {
    match order {
        ByteOrder::Little => b[off] + 256 * b[off + 1] + 65536 * b[off + 2] + 16777216 * b[off + 3],
        ByteOrder::Big => 16777216 * b[off] + 65536 * b[off + 1] + 256 * b[off + 2] + b[off + 3],
    }
}

/// The two's-complement reading of a 32-bit pattern.
pub open spec fn signed32(u: int) -> int {
    if u >= 0x8000_0000 {
        u - 0x1_0000_0000
    } else {
        u
    }
}

/// The 32-bit pattern of a signed value.
pub open spec fn bits32(x: i32) -> int {
    if x < 0 {
        x + 0x1_0000_0000
    } else {
        x as int
    }
}

/// A 16-bit value laid out in `order`.
pub open spec fn u16_bytes(order: ByteOrder, v: int) -> Seq<u8> {
    let lo = (v % 256) as u8;
    let hi = (v / 256) as u8;
    match order {
        ByteOrder::Little => seq![lo, hi],
        ByteOrder::Big => seq![hi, lo],
    }
}

/// A 32-bit value laid out in `order`.
pub open spec fn u32_bytes(order: ByteOrder, v: int) -> Seq<u8> {
    let b0 = (v % 256) as u8;
    let b1 = ((v / 256) % 256) as u8;
    let b2 = ((v / 65536) % 256) as u8;
    let b3 = (v / 16777216) as u8;
    match order {
        ByteOrder::Little => seq![b0, b1, b2, b3],
        ByteOrder::Big => seq![b3, b2, b1, b0],
    }
}

/// A 16-bit value laid out in big-endian (network) order.
pub open spec fn be16_bytes(v: int) -> Seq<u8> {
    u16_bytes(ByteOrder::Big, v)
}

/// Reading back what `u16_bytes` wrote gives the value.
pub proof fn lemma_u16_round_trip(order: ByteOrder, v: u16, pre: Seq<u8>, post: Seq<u8>)
    ensures
        u16_at(order, pre + u16_bytes(order, v as int) + post, pre.len() as int) == v,
{
    let b = pre + u16_bytes(order, v as int) + post;
    let n = pre.len() as int;
    assert(b[n] == u16_bytes(order, v as int)[0]);
    assert(b[n + 1] == u16_bytes(order, v as int)[1]);
}

/// Reading back what `u32_bytes` wrote gives the value.
pub proof fn lemma_u32_round_trip(order: ByteOrder, v: u32, pre: Seq<u8>, post: Seq<u8>)
    ensures
        u32_at(order, pre + u32_bytes(order, v as int) + post, pre.len() as int) == v,
{
    let b = pre + u32_bytes(order, v as int) + post;
    let e = u32_bytes(order, v as int);
    let n = pre.len() as int;
    assert(b[n] == e[0]);
    assert(b[n + 1] == e[1]);
    assert(b[n + 2] == e[2]);
    assert(b[n + 3] == e[3]);
}

/// Reads a native 16-bit value at `off`.
pub fn read_u16(order: ByteOrder, b: &Vec<u8>, off: usize) -> (r: u16)
    requires
        off + 2 <= b.len(),
    ensures
        r == u16_at(order, b@, off as int),
{
    let b0 = b[off] as u16;
    let b1 = b[off + 1] as u16;
    match order {
        ByteOrder::Little => b0 + 256 * b1,
        ByteOrder::Big => 256 * b0 + b1,
    }
}

/// Reads a native 32-bit value at `off`.
pub fn read_u32(order: ByteOrder, b: &Vec<u8>, off: usize) -> (r: u32)
    requires
        off + 4 <= b.len(),
    ensures
        r == u32_at(order, b@, off as int),
{
    let b0 = b[off] as u32;
    let b1 = b[off + 1] as u32;
    let b2 = b[off + 2] as u32;
    let b3 = b[off + 3] as u32;
    match order {
        ByteOrder::Little => b0 + 256 * b1 + 65536 * b2 + 16777216 * b3,
        ByteOrder::Big => 16777216 * b0 + 65536 * b1 + 256 * b2 + b3,
    }
}

/// Reads a native signed 32-bit value at `off`.
pub fn read_i32(order: ByteOrder, b: &Vec<u8>, off: usize) -> (r: i32)
    requires
        off + 4 <= b.len(),
    ensures
        r == signed32(u32_at(order, b@, off as int)),
{
    let u = read_u32(order, b, off);
    if u >= 0x8000_0000 {
        let m: u32 = u - 0x8000_0000;
        (m as i32) - 0x7fff_ffff - 1
    } else {
        u as i32
    }
}

/// Appends a 16-bit value in `order`.
pub fn push_u16(order: ByteOrder, out: &mut Vec<u8>, v: u16)
    ensures
        final(out)@ == old(out)@ + u16_bytes(order, v as int),
{
    let lo = (v % 256) as u8;
    let hi = (v / 256) as u8;
    match order {
        ByteOrder::Little => {
            out.push(lo);
            out.push(hi);
        },
        ByteOrder::Big => {
            out.push(hi);
            out.push(lo);
        },
    }
    assert(final(out)@ =~= old(out)@ + u16_bytes(order, v as int));
}

/// Appends a 32-bit value in `order`.
pub fn push_u32(order: ByteOrder, out: &mut Vec<u8>, v: u32)
    ensures
        final(out)@ == old(out)@ + u32_bytes(order, v as int),
{
    let b0 = (v % 256) as u8;
    let b1 = ((v / 256) % 256) as u8;
    let b2 = ((v / 65536) % 256) as u8;
    let b3 = (v / 16777216) as u8;
    match order {
        ByteOrder::Little => {
            out.push(b0);
            out.push(b1);
            out.push(b2);
            out.push(b3);
        },
        ByteOrder::Big => {
            out.push(b3);
            out.push(b2);
            out.push(b1);
            out.push(b0);
        },
    }
    assert(final(out)@ =~= old(out)@ + u32_bytes(order, v as int));
}

/// The 32-bit pattern of a signed value, as an unsigned integer.
pub fn to_bits32(x: i32) -> (r: u32)
    ensures
        r == bits32(x),
{
    if x < 0 {
        let m: i64 = x as i64 + 0x1_0000_0000;
        m as u32
    } else {
        x as u32
    }
}

} // verus!
