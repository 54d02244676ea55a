use vstd::prelude::*;
use crate::address::{
    decode_list_from, decode_list_spec, encode, encoded, encoded_len, list_view, SockAddr,
};
use crate::bytes::{push_u32, read_i32, read_u32, bits32, signed32, u32_at, u32_bytes, to_bits32};
use crate::error::SctpError;
use crate::events::{bitfield_of, to_bitfield, SctpEvent};
use crate::lifecycle::copy_prefix;
use crate::notification::received_bytes;
use crate::platform::Platform;

verus! {

/// An OS descriptor.
pub type RawHandle = i32;

/// Identifies one association within a one-to-many socket.
pub type AssociationId = i32;

/// Whether a multi-address bind adds or removes the addresses.
#[derive(Clone, Copy, Debug, PartialEq, Eq)]
pub enum BindxFlags {
    Add,
    Remove,
}

/// Which side's addresses an enumeration asks for.
#[derive(Clone, Copy, Debug, PartialEq, Eq)]
pub enum AddrScope {
    Local,
    Peer,
}

/// One socket-option call to issue: its level, its option code and its value
/// buffer. A set-option call passes the buffer and its exact length; a
/// get-option call passes it as both input and output.
#[derive(Clone, Debug, PartialEq, Eq)]
pub struct SockOptCall {
    pub level: i32,
    pub name: i32,
    pub value: Vec<u8>,
}

/// Size of the peel-off request record: association id in, descriptor out.
pub const PEELOFF_ARG_LEN: usize = 8;

/// Capacity of the address-enumeration buffer. It is not grown: a response that
/// does not fit makes the kernel call itself fail.
pub const GETADDRS_CAPACITY: usize = 256;

/// Size of the address-enumeration header: association id, then address count.
pub const GETADDRS_HEADER_LEN: usize = 8;

/// The option code of a multi-address bind.
pub open spec fn bindx_option(p: Platform, flags: BindxFlags) -> i32 {
    match flags {
        BindxFlags::Add => p.opt_bindx_add,
        BindxFlags::Remove => p.opt_bindx_rem,
    }
}

/// The option code of an address enumeration.
pub open spec fn getaddrs_option(p: Platform, which: AddrScope) -> i32 {
    match which {
        AddrScope::Local => p.opt_get_local_addrs,
        AddrScope::Peer => p.opt_get_peer_addrs,
    }
}

/// The result of a kernel call that reports failure by a negative value.
pub open spec fn status_of(ret: int, errno: i32) -> Result<(), SctpError> {
    if ret < 0 {
        Err(SctpError::Os(errno))
    } else {
        Ok(())
    }
}

/// Maps the result of a kernel call to success, or to the OS error it reported.
pub fn status_outcome(ret: i32, errno: i32) -> (r: Result<(), SctpError>)
    ensures
        r == status_of(ret as int, errno),
{
    if ret < 0 {
        Err(SctpError::Os(errno))
    } else {
        Ok(())
    }
}

/// The result of a multi-address bind: any non-zero kernel result is a failure.
pub open spec fn bindx_status_of(ret: int, errno: i32) -> Result<(), SctpError> {
    if ret == 0 {
        Ok(())
    } else {
        Err(SctpError::Os(errno))
    }
}

/// Interprets a multi-address bind: success only on a zero kernel result, the
/// OS error otherwise.
pub fn bindx_outcome(ret: i32, errno: i32) -> (r: Result<(), SctpError>)
    ensures
        r == bindx_status_of(ret as int, errno),
{
    if ret == 0 {
        Ok(())
    } else {
        Err(SctpError::Os(errno))
    }
}

/// The set-option call of a multi-address bind: the encoded addresses, at the
/// SCTP level, under the add or remove option code.
pub fn bindx_request(p: &Platform, addrs: &Vec<SockAddr>, flags: BindxFlags) -> (r: SockOptCall)
    ensures
        r.level == p.sol_sctp,
        r.name == bindx_option(*p, flags),
        r.value@ == encoded(*p, addrs@),
        r.value@.len() == encoded_len(addrs@),
{
    let name = match flags {
        BindxFlags::Add => p.opt_bindx_add,
        BindxFlags::Remove => p.opt_bindx_rem,
    };
    SockOptCall { level: p.sol_sctp, name, value: encode(p, addrs) }
}

/// The set-option call of a multi-address connect.
pub fn connectx_request(p: &Platform, addrs: &Vec<SockAddr>) -> (r: SockOptCall)
    ensures
        r.level == p.sol_sctp,
        r.name == p.opt_connectx,
        r.value@ == encoded(*p, addrs@),
        r.value@.len() == encoded_len(addrs@),
{
    SockOptCall { level: p.sol_sctp, name: p.opt_connectx, value: encode(p, addrs) }
}

/// Interprets a multi-address connect on `fd`: the call's return value is the
/// new association's id, and the descriptor is reused for the connected endpoint.
pub fn connectx_outcome(fd: RawHandle, ret: i32, errno: i32) -> (r: Result<
    (RawHandle, AssociationId),
    SctpError,
>)
    ensures
        ret < 0 ==> r == Err::<(RawHandle, AssociationId), SctpError>(SctpError::Os(errno)),
        ret >= 0 ==> r == Ok::<(RawHandle, AssociationId), SctpError>((fd, ret)),
{
    if ret < 0 {
        Err(SctpError::Os(errno))
    } else {
        Ok((fd, ret))
    }
}

/// Appends `n` zero bytes.
fn push_zeros(out: &mut Vec<u8>, n: usize)
    ensures
        final(out)@ == old(out)@ + Seq::new(n as nat, |i: int| 0u8),
{
    let mut i: usize = 0;
    assert(out@ =~= old(out)@ + Seq::new(0, |k: int| 0u8));
    while i < n
        invariant
            0 <= i <= n,
            out@ == old(out)@ + Seq::new(i as nat, |k: int| 0u8),
        decreases n - i,
    {
        out.push(0u8);
        i = i + 1;
        assert(out@ =~= old(out)@ + Seq::new(i as nat, |k: int| 0u8));
    }
}

/// The get-option call of a peel-off: a record holding the association id, then
/// room for the descriptor the kernel writes back.
pub fn peeloff_request(p: &Platform, assoc_id: AssociationId) -> (r: SockOptCall)
    ensures
        r.level == p.sol_sctp,
        r.name == p.opt_peeloff,
        r.value@ == u32_bytes(p.order, bits32(assoc_id)) + Seq::new(4, |i: int| 0u8),
        r.value@.len() == PEELOFF_ARG_LEN,
{
    let mut value: Vec<u8> = Vec::new();
    push_u32(p.order, &mut value, to_bits32(assoc_id));
    push_zeros(&mut value, 4);
    assert(value@ =~= u32_bytes(p.order, bits32(assoc_id)) + Seq::new(4, |i: int| 0u8));
    SockOptCall { level: p.sol_sctp, name: p.opt_peeloff, value }
}

/// Interprets a peel-off: on success the record's descriptor field, at offset 4,
/// is the new handle.
pub fn peeloff_outcome(p: &Platform, ret: i32, errno: i32, buf: &Vec<u8>) -> (r: Result<
    RawHandle,
    SctpError,
>)
    ensures
        ret < 0 ==> r == Err::<RawHandle, SctpError>(SctpError::Os(errno)),
        ret >= 0 && buf@.len() < PEELOFF_ARG_LEN ==> r == Err::<RawHandle, SctpError>(
            SctpError::Truncated,
        ),
        ret >= 0 && buf@.len() >= PEELOFF_ARG_LEN ==> r == Ok::<RawHandle, SctpError>(
            signed32(u32_at(p.order, buf@, 4)) as i32,
        ),
{
    if ret < 0 {
        Err(SctpError::Os(errno))
    } else if buf.len() < PEELOFF_ARG_LEN {
        Err(SctpError::Truncated)
    } else {
        Ok(read_i32(p.order, buf, 4))
    }
}

/// The get-option call of an address enumeration: a buffer of the fixed capacity
/// whose header starts with the association id, the rest zero.
pub fn getaddrs_request(p: &Platform, assoc_id: AssociationId, which: AddrScope) -> (r: SockOptCall)
    ensures
        r.level == p.sol_sctp,
        r.name == getaddrs_option(*p, which),
        r.value@ == u32_bytes(p.order, bits32(assoc_id)) + Seq::new(
            (GETADDRS_CAPACITY - 4) as nat,
            |i: int| 0u8,
        ),
        r.value@.len() == GETADDRS_CAPACITY,
{
    let name = match which {
        AddrScope::Local => p.opt_get_local_addrs,
        AddrScope::Peer => p.opt_get_peer_addrs,
    };
    let mut value: Vec<u8> = Vec::new();
    push_u32(p.order, &mut value, to_bits32(assoc_id));
    push_zeros(&mut value, GETADDRS_CAPACITY - 4);
    SockOptCall { level: p.sol_sctp, name, value }
}

/// The address list an enumeration response `b` holds: the count in the header
/// bounds how many records are read after it.
pub open spec fn getaddrs_list(p: Platform, b: Seq<u8>) -> Result<Seq<SockAddr>, SctpError> {
    if b.len() < GETADDRS_HEADER_LEN {
        Err(SctpError::Truncated)
    } else if u32_at(p.order, b, 4) == 0 {
        Ok(Seq::empty())
    } else {
        decode_list_spec(p, b.skip(GETADDRS_HEADER_LEN as int), u32_at(p.order, b, 4) as nat)
    }
}

/// Interprets an address enumeration: on success the header's count says how
/// many address records follow it, and exactly that many are decoded. Only the
/// `written` bytes the kernel reported are read; a record that runs past them
/// is `Truncated`.
pub fn getaddrs_outcome(p: &Platform, ret: i32, errno: i32, buf: &Vec<u8>, written: usize) -> (r:
    Result<Vec<SockAddr>, SctpError>)
    ensures
        ret < 0 ==> r == Err::<Vec<SockAddr>, SctpError>(SctpError::Os(errno)),
        ret >= 0 ==> list_view(r) == getaddrs_list(*p, received_bytes(buf@, written as int)),
{
    if ret < 0 {
        return Err(SctpError::Os(errno));
    }
    let reply = copy_prefix(buf, written);
    if reply.len() < GETADDRS_HEADER_LEN {
        return Err(SctpError::Truncated);
    }
    let count = read_u32(p.order, &reply, 4);
    if count == 0 {
        let empty: Vec<SockAddr> = Vec::new();
        assert(empty@ =~= Seq::<SockAddr>::empty());
        return Ok(empty);
    }
    decode_list_from(p, &reply, GETADDRS_HEADER_LEN, count as usize)
}

/// The set-option call of an event subscription: the subscription record of
/// `events`, at the SCTP level.
pub fn subscribe_request(p: &Platform, events: &Vec<SctpEvent>) -> (r: SockOptCall)
    ensures
        r.level == p.sol_sctp,
        r.name == p.opt_events,
        r.value@ == bitfield_of(events@).bytes_spec(),
{
    let record = to_bitfield(events);
    SockOptCall { level: p.sol_sctp, name: p.opt_events, value: record.to_bytes() }
}

/// An enumeration response that reports no addresses gives the empty list,
/// whatever bytes follow its header.
pub proof fn lemma_zero_count_is_empty(p: Platform, b: Seq<u8>)
    requires
        b.len() >= GETADDRS_HEADER_LEN,
        u32_at(p.order, b, 4) == 0,
    ensures
        getaddrs_list(p, b) == Ok::<Seq<SockAddr>, SctpError>(Seq::empty()),
{
}

} // verus!
