use vstd::prelude::*;
use crate::bytes::{
    be16_bytes, lemma_u16_round_trip, lemma_u32_round_trip, push_u16, push_u32, read_u16,
    read_u32, u16_at, u16_bytes, u32_at, u32_bytes,
};
use crate::error::SctpError;
use crate::platform::{ByteOrder, Platform};

verus! {

/// Size of the kernel's native IPv4 socket address record.
pub const IPV4_RECORD_LEN: usize = 16;

/// Size of the kernel's native IPv6 socket address record.
pub const IPV6_RECORD_LEN: usize = 28;

/// An IPv4 socket address: the four octets in network order and a port.
#[derive(Clone, Copy, Debug, PartialEq, Eq)]
pub struct SockAddrV4 {
    pub ip: [u8; 4],
    pub port: u16,
}

/// An IPv6 socket address: the sixteen octets in network order, a port,
/// the flow label word and the scope id.
#[derive(Clone, Copy, Debug, PartialEq, Eq)]
pub struct SockAddrV6 {
    pub ip: [u8; 16],
    pub port: u16,
    pub flowinfo: u32,
    pub scope_id: u32,
}

/// A socket address of either supported family.
#[derive(Clone, Copy, Debug, PartialEq, Eq)]
pub enum SockAddr {
    V4(SockAddrV4),
    V6(SockAddrV6),
}

/// The array of four octets whose sequence is `s`.
pub open spec fn octets4(s: Seq<u8>) -> [u8; 4] {
    choose|a: [u8; 4]| a@ == s
}

/// The array of sixteen octets whose sequence is `s`.
pub open spec fn octets16(s: Seq<u8>) -> [u8; 16] {
    choose|a: [u8; 16]| a@ == s
}

/// The native record of one address: family tag, port, then the per-family body.
pub open spec fn record_bytes(p: Platform, a: SockAddr) -> Seq<u8> {
    match a {
        SockAddr::V4(v4) => u16_bytes(p.order, p.af_inet as int) + be16_bytes(v4.port as int)
            + v4.ip@ + Seq::new(8, |i: int| 0u8),
        SockAddr::V6(v6) => u16_bytes(p.order, p.af_inet6 as int) + be16_bytes(v6.port as int)
            + u32_bytes(p.order, v6.flowinfo as int) + v6.ip@ + u32_bytes(
            p.order,
            v6.scope_id as int,
        ),
    }
}

/// The size of the native record of `a`.
pub open spec fn record_len(a: SockAddr) -> nat {
    match a {
        SockAddr::V4(_) => IPV4_RECORD_LEN as nat,
        SockAddr::V6(_) => IPV6_RECORD_LEN as nat,
    }
}

/// The records of `s`, concatenated in order.
pub open spec fn encoded(p: Platform, s: Seq<SockAddr>) -> Seq<u8>
    decreases s.len(),
{
    if s.len() == 0 {
        Seq::empty()
    } else {
        encoded(p, s.drop_last()) + record_bytes(p, s.last())
    }
}

/// The sum of the record sizes of `s`.
pub open spec fn encoded_len(s: Seq<SockAddr>) -> nat
    decreases s.len(),
{
    if s.len() == 0 {
        0
    } else {
        encoded_len(s.drop_last()) + record_len(s.last())
    }
}

/// The address that starts `b`, with the number of bytes its record takes.
pub open spec fn decode_one_spec(p: Platform, b: Seq<u8>) -> Result<(SockAddr, usize), SctpError> {
    if b.len() < 2 {
        Err(SctpError::Truncated)
    } else {
        let fam = u16_at(p.order, b, 0);
        if fam == p.af_inet {
            if b.len() < IPV4_RECORD_LEN {
                Err(SctpError::Truncated)
            } else {
                Ok(
                    (
                        SockAddr::V4(
                            SockAddrV4 {
                                ip: octets4(b.subrange(4, 8)),
                                port: u16_at(ByteOrder::Big, b, 2) as u16,
                            },
                        ),
                        IPV4_RECORD_LEN,
                    ),
                )
            }
        } else if fam == p.af_inet6 {
            if b.len() < IPV6_RECORD_LEN {
                Err(SctpError::Truncated)
            } else {
                Ok(
                    (
                        SockAddr::V6(
                            SockAddrV6 {
                                ip: octets16(b.subrange(8, 24)),
                                port: u16_at(ByteOrder::Big, b, 2) as u16,
                                flowinfo: u32_at(p.order, b, 4) as u32,
                                scope_id: u32_at(p.order, b, 24) as u32,
                            },
                        ),
                        IPV6_RECORD_LEN,
                    ),
                )
            }
        } else {
            Err(SctpError::UnsupportedAddressFamily(fam as u16))
        }
    }
}

/// Decoding `b` at `off`; an offset past the end leaves nothing to read.
pub open spec fn decode_at_spec(p: Platform, b: Seq<u8>, off: int) -> Result<
    (SockAddr, usize),
    SctpError,
> {
    if off <= b.len() {
        decode_one_spec(p, b.skip(off))
    } else {
        Err(SctpError::Truncated)
    }
}

/// `count` addresses read one after another from the start of `b`; the first failure stops it.
pub open spec fn decode_list_spec(p: Platform, b: Seq<u8>, count: nat) -> Result<
    Seq<SockAddr>,
    SctpError,
>
    decreases count,
{
    if count == 0 {
        Ok(Seq::empty())
    } else {
        match decode_one_spec(p, b) {
            Err(e) => Err(e),
            Ok((a, n)) => match decode_list_spec(p, b.skip(n as int), (count - 1) as nat) {
                Err(e) => Err(e),
                Ok(rest) => Ok(seq![a] + rest),
            },
        }
    }
}

/// The view of a decoded list.
pub open spec fn list_view(r: Result<Vec<SockAddr>, SctpError>) -> Result<Seq<SockAddr>, SctpError> {
    match r {
        Ok(v) => Ok(v@),
        Err(e) => Err(e),
    }
}

/// `r` with `pre` put in front of a successful result.
pub open spec fn prepend(pre: Seq<SockAddr>, r: Result<Seq<SockAddr>, SctpError>) -> Result<
    Seq<SockAddr>,
    SctpError,
> {
    match r {
        Ok(s) => Ok(pre + s),
        Err(e) => Err(e),
    }
}

/// Appends the native record of `a` to `out`.
fn push_record(p: Platform, out: &mut Vec<u8>, a: &SockAddr)
    ensures
        final(out)@ == old(out)@ + record_bytes(p, *a),
{
    match a {
        SockAddr::V4(v4) => {
            push_u16(p.order, out, p.af_inet);
            push_u16(ByteOrder::Big, out, v4.port);
            let mut i: usize = 0;
            assert(v4.ip@.subrange(0, 0) =~= Seq::<u8>::empty());
            assert(out@ =~= out@ + v4.ip@.subrange(0, 0));
            while i < 4
                invariant
                    0 <= i <= 4,
                    out@ == old(out)@ + u16_bytes(p.order, p.af_inet as int) + be16_bytes(
                        v4.port as int,
                    ) + v4.ip@.subrange(0, i as int),
                decreases 4 - i,
            {
                out.push(v4.ip[i]);
                i = i + 1;
                assert(v4.ip@.subrange(0, i as int) =~= v4.ip@.subrange(0, i - 1) + seq![v4.ip@[i - 1]]);
            }
            let mut j: usize = 0;
            assert(v4.ip@.subrange(0, 4) =~= v4.ip@);
            assert(out@ =~= out@ + Seq::new(0, |k: int| 0u8));
            while j < 8
                invariant
                    0 <= j <= 8,
                    out@ == old(out)@ + u16_bytes(p.order, p.af_inet as int) + be16_bytes(
                        v4.port as int,
                    ) + v4.ip@ + Seq::new(j as nat, |k: int| 0u8),
                decreases 8 - j,
            {
                out.push(0u8);
                j = j + 1;
                assert(Seq::new(j as nat, |k: int| 0u8) =~= Seq::new((j - 1) as nat, |k: int| 0u8) + seq![0u8]);
            }
        },
        SockAddr::V6(v6) => {
            push_u16(p.order, out, p.af_inet6);
            push_u16(ByteOrder::Big, out, v6.port);
            push_u32(p.order, out, v6.flowinfo);
            let mut i: usize = 0;
            assert(v6.ip@.subrange(0, 0) =~= Seq::<u8>::empty());
            assert(out@ =~= out@ + v6.ip@.subrange(0, 0));
            while i < 16
                invariant
                    0 <= i <= 16,
                    out@ == old(out)@ + u16_bytes(p.order, p.af_inet6 as int) + be16_bytes(
                        v6.port as int,
                    ) + u32_bytes(p.order, v6.flowinfo as int) + v6.ip@.subrange(0, i as int),
                decreases 16 - i,
            {
                out.push(v6.ip[i]);
                i = i + 1;
                assert(v6.ip@.subrange(0, i as int) =~= v6.ip@.subrange(0, i - 1) + seq![v6.ip@[i - 1]]);
            }
            assert(v6.ip@.subrange(0, 16) =~= v6.ip@);
            push_u32(p.order, out, v6.scope_id);
        },
    }
    assert(out@ =~= old(out)@ + record_bytes(p, *a));
}

/// An array of four octets is the one its sequence names.
proof fn lemma_octets4(a: [u8; 4])
    ensures
        octets4(a@) == a,
{
    assert(octets4(a@)@ == a@);
    assert(octets4(a@) =~= a);
}

/// An array of sixteen octets is the one its sequence names.
proof fn lemma_octets16(a: [u8; 16])
    ensures
        octets16(a@) == a,
{
    assert(octets16(a@)@ == a@);
    assert(octets16(a@) =~= a);
}

/// Serializes `addrs` as the kernel expects them: their native records, in order,
/// with nothing between them.
pub fn encode(p: &Platform, addrs: &Vec<SockAddr>) -> (r: Vec<u8>)
    ensures
        r@ == encoded(*p, addrs@),
        r@.len() == encoded_len(addrs@),
{
    let mut out: Vec<u8> = Vec::new();
    let mut i: usize = 0;
    while i < addrs.len()
        invariant
            0 <= i <= addrs@.len(),
            out@ == encoded(*p, addrs@.subrange(0, i as int)),
        decreases addrs@.len() - i,
    {
        push_record(*p, &mut out, &addrs[i]);
        i = i + 1;
        assert(addrs@.subrange(0, i as int).drop_last() =~= addrs@.subrange(0, i - 1));
    }
    assert(addrs@.subrange(0, i as int) =~= addrs@);
    proof {
        lemma_encoded_len(*p, addrs@);
    }
    out
}

/// Reads the address record that starts at `off` in `buf`.
///
/// The family tag selects the record's size; a tag of neither family fails with
/// `UnsupportedAddressFamily`, and a record that runs past the end with `Truncated`.
pub fn decode_one(p: &Platform, buf: &Vec<u8>, off: usize) -> (r: Result<(SockAddr, usize), SctpError>)
    ensures
        r == decode_at_spec(*p, buf@, off as int),
{
    if off > buf.len() || buf.len() - off < 2 {
        return Err(SctpError::Truncated);
    }
    let ghost b = buf@.skip(off as int);
    let fam = read_u16(p.order, buf, off);
    assert(u16_at(p.order, b, 0) == fam);
    if fam == p.af_inet {
        if buf.len() - off < IPV4_RECORD_LEN {
            return Err(SctpError::Truncated);
        }
        let port = read_u16(ByteOrder::Big, buf, off + 2);
        let ip: [u8; 4] = [buf[off + 4], buf[off + 5], buf[off + 6], buf[off + 7]];
        proof {
            assert(u16_at(ByteOrder::Big, b, 2) == port);
            assert(ip@ =~= b.subrange(4, 8));
            lemma_octets4(ip);
        }
        Ok((SockAddr::V4(SockAddrV4 { ip, port }), IPV4_RECORD_LEN))
    } else if fam == p.af_inet6 {
        if buf.len() - off < IPV6_RECORD_LEN {
            return Err(SctpError::Truncated);
        }
        let port = read_u16(ByteOrder::Big, buf, off + 2);
        let flowinfo = read_u32(p.order, buf, off + 4);
        let mut ip: [u8; 16] = [0u8; 16];
        let mut i: usize = 0;
        while i < 16
            invariant
                0 <= i <= 16,
                off + IPV6_RECORD_LEN <= buf.len(),
                b == buf@.skip(off as int),
                forall|k: int| 0 <= k < i ==> ip@[k] == b[8 + k],
            decreases 16 - i,
        {
            ip[i] = buf[off + 8 + i];
            i = i + 1;
        }
        let scope_id = read_u32(p.order, buf, off + 24);
        proof {
            assert(u16_at(ByteOrder::Big, b, 2) == port);
            assert(u32_at(p.order, b, 4) == flowinfo);
            assert(u32_at(p.order, b, 24) == scope_id);
            assert(ip@ =~= b.subrange(8, 24));
            lemma_octets16(ip);
        }
        Ok((SockAddr::V6(SockAddrV6 { ip, port, flowinfo, scope_id }), IPV6_RECORD_LEN))
    } else {
        Err(SctpError::UnsupportedAddressFamily(fam))
    }
}

/// Reads `count` address records one after another, starting at `off`.
///
/// Each record begins where the previous one ended; decoding stops after `count`
/// records even when bytes remain, and the first failure is returned.
pub fn decode_list_from(p: &Platform, buf: &Vec<u8>, off: usize, count: usize) -> (r: Result<
    Vec<SockAddr>,
    SctpError,
>)
    requires
        off <= buf@.len(),
    ensures
        list_view(r) == decode_list_spec(*p, buf@.skip(off as int), count as nat),
{
    let mut out: Vec<SockAddr> = Vec::new();
    let mut pos: usize = off;
    let mut i: usize = 0;
    assert(out@ + Seq::<SockAddr>::empty() =~= Seq::<SockAddr>::empty());
    while i < count
        invariant
            0 <= i <= count,
            off <= pos <= buf@.len(),
            decode_list_spec(*p, buf@.skip(off as int), count as nat) == prepend(
                out@,
                decode_list_spec(*p, buf@.skip(pos as int), (count - i) as nat),
            ),
        decreases count - i,
    {
        match decode_one(p, buf, pos) {
            Err(e) => {
                return Err(e);
            },
            Ok((a, n)) => {
                assert(pos + n <= buf.len());
                proof {
                    assert(buf@.skip(pos as int).skip(n as int) =~= buf@.skip(pos + n));
                    let tail = decode_list_spec(*p, buf@.skip(pos + n), (count - i - 1) as nat);
                    if let Ok(rest) = tail {
                        assert(out@.push(a) + rest =~= out@ + (seq![a] + rest));
                    }
                }
                out.push(a);
                pos = pos + n;
                i = i + 1;
            },
        }
    }
    assert(out@ + Seq::<SockAddr>::empty() =~= out@);
    Ok(out)
}

/// Reads `count` address records one after another from the start of `buf`.
pub fn decode_list(p: &Platform, buf: &Vec<u8>, count: usize) -> (r: Result<Vec<SockAddr>, SctpError>)
    ensures
        list_view(r) == decode_list_spec(*p, buf@, count as nat),
{
    assert(buf@.skip(0) =~= buf@);
    decode_list_from(p, buf, 0, count)
}

/// The records of a non-empty list are the first one's followed by the rest's.
proof fn lemma_encoded_front(p: Platform, s: Seq<SockAddr>)
    requires
        s.len() > 0,
    ensures
        encoded(p, s) == record_bytes(p, s[0]) + encoded(p, s.skip(1)),
    decreases s.len(),
{
    if s.len() == 1 {
        assert(s.drop_last() =~= Seq::<SockAddr>::empty());
        assert(s.skip(1) =~= Seq::<SockAddr>::empty());
        assert(encoded(p, s) =~= record_bytes(p, s[0]) + encoded(p, s.skip(1)));
    } else {
        lemma_encoded_front(p, s.drop_last());
        assert(s.skip(1).drop_last() =~= s.drop_last().skip(1));
        assert(s.drop_last()[0] == s[0]);
        assert(s.skip(1).last() == s.last());
        assert(encoded(p, s) =~= record_bytes(p, s[0]) + encoded(p, s.skip(1)));
    }
}

/// The encoding of a list is as long as the sum of its record sizes.
proof fn lemma_encoded_len(p: Platform, s: Seq<SockAddr>)
    ensures
        encoded(p, s).len() == encoded_len(s),
    decreases s.len(),
{
    if s.len() > 0 {
        lemma_encoded_len(p, s.drop_last());
        let a = s.last();
        match a {
            SockAddr::V4(v4) => {
                assert(record_bytes(p, a).len() == 16);
            },
            SockAddr::V6(v6) => {
                assert(record_bytes(p, a).len() == 28);
            },
        }
    }
}

/// An IPv4 record, followed by anything, decodes to its address.
proof fn lemma_decode_record_v4(p: Platform, v4: SockAddrV4, rest: Seq<u8>)
    ensures
        decode_one_spec(p, record_bytes(p, SockAddr::V4(v4)) + rest) == Ok::<
            (SockAddr, usize),
            SctpError,
        >((SockAddr::V4(v4), IPV4_RECORD_LEN)),
{
    let b = record_bytes(p, SockAddr::V4(v4)) + rest;
    let e: Seq<u8> = Seq::empty();
    let fam = u16_bytes(p.order, p.af_inet as int);
    let port = be16_bytes(v4.port as int);
    let zeros = Seq::new(8, |i: int| 0u8);
    let after = v4.ip@ + zeros + rest;
    assert(u16_at(p.order, b, 0) == p.af_inet) by {
        assert(b =~= e + fam + (port + after));
        lemma_u16_round_trip(p.order, p.af_inet, e, port + after);
    }
    assert(u16_at(ByteOrder::Big, b, 2) == v4.port) by {
        assert(b =~= fam + port + after);
        lemma_u16_round_trip(ByteOrder::Big, v4.port, fam, after);
    }
    assert(octets4(b.subrange(4, 8)) == v4.ip) by {
        assert(b.subrange(4, 8) =~= v4.ip@);
        lemma_octets4(v4.ip);
    }
    assert(b.len() >= IPV4_RECORD_LEN);
}

/// An IPv6 record, followed by anything, decodes to its address.
proof fn lemma_decode_record_v6(p: Platform, v6: SockAddrV6, rest: Seq<u8>)
    requires
        p.wf(),
    ensures
        decode_one_spec(p, record_bytes(p, SockAddr::V6(v6)) + rest) == Ok::<
            (SockAddr, usize),
            SctpError,
        >((SockAddr::V6(v6), IPV6_RECORD_LEN)),
{
    let b = record_bytes(p, SockAddr::V6(v6)) + rest;
    let e: Seq<u8> = Seq::empty();
    let fam = u16_bytes(p.order, p.af_inet6 as int);
    let port = be16_bytes(v6.port as int);
    let flow = u32_bytes(p.order, v6.flowinfo as int);
    let scope = u32_bytes(p.order, v6.scope_id as int);
    assert(u16_at(p.order, b, 0) == p.af_inet6) by {
        assert(b =~= e + fam + (port + flow + v6.ip@ + scope + rest));
        lemma_u16_round_trip(p.order, p.af_inet6, e, port + flow + v6.ip@ + scope + rest);
    }
    assert(u16_at(ByteOrder::Big, b, 2) == v6.port) by {
        assert(b =~= fam + port + (flow + v6.ip@ + scope + rest));
        lemma_u16_round_trip(ByteOrder::Big, v6.port, fam, flow + v6.ip@ + scope + rest);
    }
    assert(u32_at(p.order, b, 4) == v6.flowinfo) by {
        assert(b =~= (fam + port) + flow + (v6.ip@ + scope + rest));
        lemma_u32_round_trip(p.order, v6.flowinfo, fam + port, v6.ip@ + scope + rest);
    }
    assert(u32_at(p.order, b, 24) == v6.scope_id) by {
        assert(b =~= (fam + port + flow + v6.ip@) + scope + rest);
        lemma_u32_round_trip(p.order, v6.scope_id, fam + port + flow + v6.ip@, rest);
    }
    assert(octets16(b.subrange(8, 24)) == v6.ip) by {
        assert(b.subrange(8, 24) =~= v6.ip@);
        lemma_octets16(v6.ip);
    }
    assert(b.len() >= IPV6_RECORD_LEN);
}

/// The record of an address, followed by anything, decodes to that address and
/// its record size.
proof fn lemma_decode_record(p: Platform, a: SockAddr, rest: Seq<u8>)
    requires
        p.wf(),
    ensures
        decode_one_spec(p, record_bytes(p, a) + rest) == Ok::<(SockAddr, usize), SctpError>(
            (a, record_len(a) as usize),
        ),
        record_bytes(p, a).len() == record_len(a),
{
    match a {
        SockAddr::V4(v4) => lemma_decode_record_v4(p, v4, rest),
        SockAddr::V6(v6) => lemma_decode_record_v6(p, v6, rest),
    }
}

/// Decoding the records of `s`, followed by anything, `s.len()` times gives `s` back.
proof fn lemma_decode_encoded_prefix(p: Platform, s: Seq<SockAddr>, tail: Seq<u8>)
    requires
        p.wf(),
    ensures
        decode_list_spec(p, encoded(p, s) + tail, s.len()) == Ok::<Seq<SockAddr>, SctpError>(s),
    decreases s.len(),
{
    if s.len() > 0 {
        lemma_encoded_front(p, s);
        let x = encoded(p, s) + tail;
        let more = encoded(p, s.skip(1)) + tail;
        assert(x =~= record_bytes(p, s[0]) + more);
        lemma_decode_record(p, s[0], more);
        let n = record_len(s[0]) as usize;
        assert(x.skip(n as int) =~= more);
        lemma_decode_encoded_prefix(p, s.skip(1), tail);
        assert(seq![s[0]] + s.skip(1) =~= s);
    } else {
        assert(s =~= Seq::<SockAddr>::empty());
    }
}

/// Round trip of the codec: decoding an encoded list, as many times as it has
/// entries, reproduces the list in its original order.
pub proof fn lemma_decode_list_encode(p: Platform, list: Seq<SockAddr>)
    requires
        p.wf(),
    ensures
        decode_list_spec(p, encoded(p, list), list.len()) == Ok::<Seq<SockAddr>, SctpError>(list),
{
    assert(encoded(p, list) + Seq::<u8>::empty() =~= encoded(p, list));
    lemma_decode_encoded_prefix(p, list, Seq::empty());
}

/// A record whose family tag is neither IPv4 nor IPv6 fails to decode with
/// `UnsupportedAddressFamily`, whatever follows the tag, and nothing is consumed.
pub proof fn lemma_unsupported_family(p: Platform, b: Seq<u8>)
    requires
        b.len() >= 2,
        u16_at(p.order, b, 0) != p.af_inet,
        u16_at(p.order, b, 0) != p.af_inet6,
    ensures
        decode_one_spec(p, b) == Err::<(SockAddr, usize), SctpError>(
            SctpError::UnsupportedAddressFamily(u16_at(p.order, b, 0) as u16),
        ),
{
}

} // verus!
