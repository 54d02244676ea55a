use vstd::prelude::*;
use crate::bytes::{read_i32, read_u16, read_u32, signed32, u16_at, u32_at};
use crate::error::SctpError;
use crate::platform::Platform;

verus! {

/// Size of the fixed header of an association-change notification.
pub const ASSOC_CHANGE_HEADER_LEN: usize = 20;

/// An association-change notification: the fixed header fields, in native order
/// at their kernel offsets, and the opaque bytes that follow the header.
#[derive(Clone, Debug, PartialEq, Eq)]
pub struct AssociationChange {
    pub assoc_type: u16,
    pub flags: u16,
    pub length: u32,
    pub state: u16,
    pub error: u16,
    pub ob_streams: u16,
    pub ib_streams: u16,
    pub assoc_id: i32,
    pub info: Vec<u8>,
}

/// A decoded notification; kinds this layer does not parse are `Unsupported`.
#[derive(Clone, Debug, PartialEq, Eq)]
pub enum SctpNotification {
    AssociationChange(AssociationChange),
    Unsupported,
}

/// What one receive call delivered: a notification or ordinary data.
#[derive(Clone, Debug, PartialEq, Eq)]
pub enum SctpNotificationOrData {
    Notification(SctpNotification),
    Data(Vec<u8>),
}

/// `ac` holds the header fields of the record `b` and the bytes after the header.
pub open spec fn assoc_change_of(p: Platform, b: Seq<u8>, ac: AssociationChange) -> bool {
    &&& ac.assoc_type == u16_at(p.order, b, 0)
    &&& ac.flags == u16_at(p.order, b, 2)
    &&& ac.length == u32_at(p.order, b, 4)
    &&& ac.state == u16_at(p.order, b, 8)
    &&& ac.error == u16_at(p.order, b, 10)
    &&& ac.ob_streams == u16_at(p.order, b, 12)
    &&& ac.ib_streams == u16_at(p.order, b, 14)
    &&& ac.assoc_id == signed32(u32_at(p.order, b, 16))
    &&& ac.info@ == b.skip(ASSOC_CHANGE_HEADER_LEN as int)
}

/// `r` is what decoding the notification record `b` gives: an association change
/// for its tag, with a complete header; `Unsupported` for any other tag; a record
/// too short for its tag or its header is `Truncated`.
pub open spec fn notification_of(
    p: Platform,
    b: Seq<u8>,
    r: Result<SctpNotification, SctpError>,
) -> bool {
    if b.len() < 2 {
        r == Err::<SctpNotification, SctpError>(SctpError::Truncated)
    } else if u16_at(p.order, b, 0) == p.assoc_change {
        if b.len() < ASSOC_CHANGE_HEADER_LEN {
            r == Err::<SctpNotification, SctpError>(SctpError::Truncated)
        } else {
            match r {
                Ok(SctpNotification::AssociationChange(ac)) => assoc_change_of(p, b, ac),
                _ => false,
            }
        }
    } else {
        r == Ok::<SctpNotification, SctpError>(SctpNotification::Unsupported)
    }
}

/// Copies `b[from..]` into a new vector.
fn copy_tail(b: &Vec<u8>, from: usize) -> (r: Vec<u8>)
    requires
        from <= b@.len(),
    ensures
        r@ == b@.skip(from as int),
{
    let mut r: Vec<u8> = Vec::new();
    let mut i: usize = from;
    while i < b.len()
        invariant
            from <= i <= b@.len(),
            r@ == b@.subrange(from as int, i as int),
        decreases b@.len() - i,
    {
        r.push(b[i]);
        i = i + 1;
        assert(r@ =~= b@.subrange(from as int, i as int));
    }
    assert(r@ =~= b@.skip(from as int));
    r
}

/// Decodes a notification record delivered on the receive path.
///
/// The native 16-bit tag at offset 0 selects the kind. An association change is
/// parsed from its fixed header, and everything from offset 20 on is kept as
/// opaque info. Any other tag gives `Unsupported`: unknown kinds are no error.
pub fn decode_notification(p: &Platform, data: &Vec<u8>) -> (r: Result<SctpNotification, SctpError>)
    ensures
        notification_of(*p, data@, r),
{
    if data.len() < 2 {
        return Err(SctpError::Truncated);
    }
    let tag = read_u16(p.order, data, 0);
    if tag != p.assoc_change {
        return Ok(SctpNotification::Unsupported);
    }
    if data.len() < ASSOC_CHANGE_HEADER_LEN {
        return Err(SctpError::Truncated);
    }
    let ac = AssociationChange {
        assoc_type: tag,
        flags: read_u16(p.order, data, 2),
        length: read_u32(p.order, data, 4),
        state: read_u16(p.order, data, 8),
        error: read_u16(p.order, data, 10),
        ob_streams: read_u16(p.order, data, 12),
        ib_streams: read_u16(p.order, data, 14),
        assoc_id: read_i32(p.order, data, 16),
        info: copy_tail(data, ASSOC_CHANGE_HEADER_LEN),
    };
    Ok(SctpNotification::AssociationChange(ac))
}

/// The bytes a receive delivered: the first `received` bytes of the buffer, or
/// all of it if the count is larger.
pub open spec fn received_bytes(buf: Seq<u8>, received: int) -> Seq<u8> {
    if received < buf.len() {
        buf.subrange(0, received)
    } else {
        buf
    }
}

/// Interprets the outcome of one receive call.
///
/// `ret` is the call's result, `errno` the OS error code when it failed, `flags`
/// the message flags the kernel reported and `buf` the payload buffer. A
/// negative result is surfaced as `Os(errno)`. Otherwise the payload is cut to
/// the bytes received; with the notification flag set it is decoded as a
/// notification, else it is returned as data.
pub fn receive_outcome(p: &Platform, ret: isize, errno: i32, flags: u32, buf: Vec<u8>) -> (r: Result<
    SctpNotificationOrData,
    SctpError,
>)
    ensures
        ret < 0 ==> r == Err::<SctpNotificationOrData, SctpError>(SctpError::Os(errno)),
        ret >= 0 && flags & p.msg_notification == 0 ==> (match r {
            Ok(SctpNotificationOrData::Data(d)) => d@ == received_bytes(buf@, ret as int),
            _ => false,
        }),
        ret >= 0 && flags & p.msg_notification != 0 ==> (match r {
            Ok(SctpNotificationOrData::Notification(n)) => notification_of(
                *p,
                received_bytes(buf@, ret as int),
                Ok(n),
            ),
            Ok(SctpNotificationOrData::Data(_)) => false,
            Err(e) => notification_of(*p, received_bytes(buf@, ret as int), Err(e)),
        }),
{
    if ret < 0 {
        return Err(SctpError::Os(errno));
    }
    let mut data = buf;
    let n = ret as usize;
    if n < data.len() {
        data.truncate(n);
    }
    assert(data@ =~= received_bytes(buf@, ret as int));
    if flags & p.msg_notification != 0 {
        match decode_notification(p, &data) {
            Ok(n) => Ok(SctpNotificationOrData::Notification(n)),
            Err(e) => Err(e),
        }
    } else {
        Ok(SctpNotificationOrData::Data(data))
    }
}

} // verus!
