use vstd::prelude::*;
use crate::address::{decode_at_spec, decode_one, SockAddr};
use crate::bridge::RawHandle;
use crate::error::SctpError;
use crate::notification::received_bytes;
use crate::platform::Platform;

verus! {

/// The socket model: one association per descriptor, or many multiplexed on one.
#[derive(Clone, Copy, Debug, PartialEq, Eq)]
pub enum SocketToAssociation {
    OneToOne,
    OneToMany,
}

/// Which directions a shutdown closes.
#[derive(Clone, Copy, Debug, PartialEq, Eq)]
pub enum ShutdownHow {
    Read,
    Write,
    Both,
}

/// Arguments of the kernel's socket-creation call.
#[derive(Clone, Copy, Debug, PartialEq, Eq)]
pub struct SocketRequest {
    pub domain: i32,
    pub sock_type: i32,
    pub protocol: i32,
}

/// Size of the peer-address buffer handed to accept: room for the largest
/// supported family's record.
pub const ACCEPT_ADDR_CAPACITY: usize = 32;

/// The socket type of a model.
pub open spec fn socket_type_of(p: Platform, model: SocketToAssociation) -> i32 {
    match model {
        SocketToAssociation::OneToOne => p.sock_stream,
        SocketToAssociation::OneToMany => p.sock_seqpacket,
    }
}

/// The kernel flag of a shutdown direction.
pub open spec fn shutdown_flag_of(p: Platform, how: ShutdownHow) -> i32 {
    match how {
        ShutdownHow::Read => p.shut_rd,
        ShutdownHow::Write => p.shut_wr,
        ShutdownHow::Both => p.shut_rdwr,
    }
}

/// The socket-creation call for `domain` and a model: stream semantics for
/// one-to-one, sequenced packets for one-to-many, and SCTP as the protocol in
/// both cases.
pub fn socket_request(p: &Platform, domain: i32, model: SocketToAssociation) -> (r: SocketRequest)
    ensures
        r.domain == domain,
        r.sock_type == socket_type_of(*p, model),
        r.protocol == p.ipproto_sctp,
{
    let sock_type = match model {
        SocketToAssociation::OneToOne => p.sock_stream,
        SocketToAssociation::OneToMany => p.sock_seqpacket,
    };
    SocketRequest { domain, sock_type, protocol: p.ipproto_sctp }
}

/// Maps the result of a call that returns a new descriptor.
pub fn handle_outcome(ret: i32, errno: i32) -> (r: Result<RawHandle, SctpError>)
    ensures
        ret < 0 ==> r == Err::<RawHandle, SctpError>(SctpError::Os(errno)),
        ret >= 0 ==> r == Ok::<RawHandle, SctpError>(ret),
{
    if ret < 0 {
        Err(SctpError::Os(errno))
    } else {
        Ok(ret)
    }
}

/// The kernel flag for a shutdown direction.
pub fn shutdown_flag(p: &Platform, how: ShutdownHow) -> (r: i32)
    ensures
        r == shutdown_flag_of(*p, how),
{
    match how {
        ShutdownHow::Read => p.shut_rd,
        ShutdownHow::Write => p.shut_wr,
        ShutdownHow::Both => p.shut_rdwr,
    }
}

/// Copies the first `n` bytes of `b`, or all of it if `n` is larger.
pub(crate) fn copy_prefix(b: &Vec<u8>, n: usize) -> (r: Vec<u8>)
    ensures
        r@ == received_bytes(b@, n as int),
{
    let end = if n < b.len() {
        n
    } else {
        b.len()
    };
    let mut r: Vec<u8> = Vec::new();
    let mut i: usize = 0;
    while i < end
        invariant
            0 <= i <= end <= b@.len(),
            r@ == b@.subrange(0, i as int),
        decreases end - i,
    {
        r.push(b[i]);
        i = i + 1;
        assert(r@ =~= b@.subrange(0, i as int));
    }
    assert(r@ =~= received_bytes(b@, n as int));
    r
}

/// Interprets an accept: `ret` is the new descriptor or a failure, `buf` the
/// peer-address buffer and `written` the length the kernel reported. The peer
/// address is decoded from the bytes actually written.
pub fn accept_outcome(p: &Platform, ret: i32, errno: i32, buf: &Vec<u8>, written: usize) -> (r: Result<
    (RawHandle, SockAddr),
    SctpError,
>)
    ensures
        ret < 0 ==> r == Err::<(RawHandle, SockAddr), SctpError>(SctpError::Os(errno)),
        ret >= 0 ==> match decode_at_spec(*p, received_bytes(buf@, written as int), 0) {
            Ok((a, _)) => r == Ok::<(RawHandle, SockAddr), SctpError>((ret, a)),
            Err(e) => r == Err::<(RawHandle, SockAddr), SctpError>(e),
        },
{
    if ret < 0 {
        return Err(SctpError::Os(errno));
    }
    let peer = copy_prefix(buf, written);
    match decode_one(p, &peer, 0) {
        Ok((a, _)) => Ok((ret, a)),
        Err(e) => Err(e),
    }
}

} // verus!
