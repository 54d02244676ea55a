use vstd::prelude::*;

verus! {

/// Byte order in which the host kernel lays out multi-byte integers.
#[derive(Clone, Copy, Debug, PartialEq, Eq)]
pub enum ByteOrder {
    Little,
    Big,
}

/// The kernel ABI constants that the codec and the socket-option bridge depend on.
///
/// Porting to another kernel ABI means building another table; nothing else changes.
#[derive(Clone, Copy, Debug, PartialEq, Eq)]
pub struct Platform {
    /// Order of native multi-byte integers in kernel records.
    pub order: ByteOrder,
    /// Family discriminator of an IPv4 socket address record.
    pub af_inet: u16,
    /// Family discriminator of an IPv6 socket address record.
    pub af_inet6: u16,
    /// Socket-option level of the SCTP options.
    pub sol_sctp: i32,
    /// Option code: add local addresses to a socket.
    pub opt_bindx_add: i32,
    /// Option code: remove local addresses from a socket.
    pub opt_bindx_rem: i32,
    /// Option code: detach an association into a new descriptor.
    pub opt_peeloff: i32,
    /// Option code: connect to several peer addresses at once.
    pub opt_connectx: i32,
    /// Option code: subscribe to notification events.
    pub opt_events: i32,
    /// Option code: enumerate the peer addresses of an association.
    pub opt_get_peer_addrs: i32,
    /// Option code: enumerate the local addresses of an association.
    pub opt_get_local_addrs: i32,
    /// Notification type tag of an association-change record.
    pub assoc_change: u16,
    /// Receive flag bit that marks the payload as a notification.
    pub msg_notification: u32,
    /// Socket type of the one-to-one (connection oriented) model.
    pub sock_stream: i32,
    /// Socket type of the one-to-many (message oriented) model.
    pub sock_seqpacket: i32,
    /// Protocol number of SCTP.
    pub ipproto_sctp: i32,
    /// Shutdown flag: no more receptions.
    pub shut_rd: i32,
    /// Shutdown flag: no more transmissions.
    pub shut_wr: i32,
    /// Shutdown flag: neither.
    pub shut_rdwr: i32,
}

impl Platform {
    /// A table is usable when the two address families can be told apart.
    pub open spec fn wf(self) -> bool {
        self.af_inet != self.af_inet6
    }

    /// The constants of the Linux SCTP socket API, with the host's byte order.
    pub fn linux(order: ByteOrder) -> (r: Platform)
        ensures
            r.wf(),
            r.order == order,
            r.af_inet == 2,
            r.af_inet6 == 10,
            r.sol_sctp == 132,
            r.opt_bindx_add == 100,
            r.opt_bindx_rem == 101,
            r.opt_peeloff == 102,
            r.opt_connectx == 110,
            r.opt_events == 11,
            r.opt_get_peer_addrs == 108,
            r.opt_get_local_addrs == 109,
            r.assoc_change == 0x8001,
            r.msg_notification == 0x8000,
            r.sock_stream == 1,
            r.sock_seqpacket == 5,
            r.ipproto_sctp == 132,
            r.shut_rd == 0,
            r.shut_wr == 1,
            r.shut_rdwr == 2,
    {
        Platform {
            order,
            af_inet: 2,
            af_inet6: 10,
            sol_sctp: 132,
            opt_bindx_add: 100,
            opt_bindx_rem: 101,
            opt_peeloff: 102,
            opt_connectx: 110,
            opt_events: 11,
            opt_get_peer_addrs: 108,
            opt_get_local_addrs: 109,
            assoc_change: 0x8001,
            msg_notification: 0x8000,
            sock_stream: 1,
            sock_seqpacket: 5,
            ipproto_sctp: 132,
            shut_rd: 0,
            shut_wr: 1,
            shut_rdwr: 2,
        }
    }
}

} // verus!
