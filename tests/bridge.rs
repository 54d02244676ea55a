use sctp_rs::address::{encode, SockAddr, SockAddrV4};
use sctp_rs::bridge::{
    bindx_request, connectx_outcome, connectx_request, getaddrs_outcome, getaddrs_request,
    peeloff_outcome, peeloff_request, status_outcome, bindx_outcome, subscribe_request, AddrScope, BindxFlags,
    GETADDRS_CAPACITY,
};
use sctp_rs::error::SctpError;
use sctp_rs::events::{to_bitfield, EventSubscribe, SctpEvent};
use sctp_rs::lifecycle::{
    accept_outcome, handle_outcome, shutdown_flag, socket_request, ShutdownHow,
    SocketToAssociation, ACCEPT_ADDR_CAPACITY,
};
use sctp_rs::platform::{ByteOrder, Platform};

fn le() -> Platform {
    Platform::linux(ByteOrder::Little)
}

fn v4(a: u8, b: u8, c: u8, d: u8, port: u16) -> SockAddr {
    SockAddr::V4(SockAddrV4 { ip: [a, b, c, d], port })
}

#[test]
fn bindx_add_two_ipv4_addresses() {
    let call = bindx_request(&le(), &vec![v4(10, 0, 0, 1, 0), v4(10, 0, 0, 2, 0)], BindxFlags::Add);
    assert_eq!(call.level, 132);
    assert_eq!(call.name, 100);
    assert_eq!(
        call.value,
        vec![
            2, 0, 0, 0, 10, 0, 0, 1, 0, 0, 0, 0, 0, 0, 0, 0, 2, 0, 0, 0, 10, 0, 0, 2, 0, 0, 0, 0,
            0, 0, 0, 0
        ]
    );
    assert_eq!(call.value.len(), 32);
}

#[test]
fn bindx_remove_uses_remove_code() {
    let call = bindx_request(&le(), &vec![v4(10, 0, 0, 1, 0)], BindxFlags::Remove);
    assert_eq!(call.name, 101);
}

#[test]
fn status_outcome_maps_failure() {
    assert_eq!(status_outcome(0, 0), Ok(()));
    assert_eq!(status_outcome(-1, 98), Err(SctpError::Os(98)));
}

#[test]
fn connectx_returns_association_id() {
    let call = connectx_request(&le(), &vec![v4(127, 0, 0, 1, 7)]);
    assert_eq!(call.name, 110);
    assert_eq!(call.value.len(), 16);
    assert_eq!(connectx_outcome(5, 42, 0), Ok((5, 42)));
    assert_eq!(connectx_outcome(5, -1, 111), Err(SctpError::Os(111)));
}

#[test]
fn peeloff_request_and_outcome() {
    let call = peeloff_request(&le(), -2);
    assert_eq!(call.name, 102);
    assert_eq!(call.value, vec![0xfe, 0xff, 0xff, 0xff, 0, 0, 0, 0]);
    let reply = vec![0xfe, 0xff, 0xff, 0xff, 9, 0, 0, 0];
    assert_eq!(peeloff_outcome(&le(), 0, 0, &reply), Ok(9));
    assert_eq!(peeloff_outcome(&le(), -1, 22, &reply), Err(SctpError::Os(22)));
    assert_eq!(peeloff_outcome(&le(), 0, 0, &vec![1, 2, 3]), Err(SctpError::Truncated));
}

#[test]
fn getaddrs_request_layout() {
    let call = getaddrs_request(&le(), 7, AddrScope::Peer);
    assert_eq!(call.name, 108);
    assert_eq!(call.value.len(), GETADDRS_CAPACITY);
    assert_eq!(&call.value[0..4], &[7, 0, 0, 0]);
    assert!(call.value[4..].iter().all(|b| *b == 0));
    assert_eq!(getaddrs_request(&le(), 7, AddrScope::Local).name, 109);
}

#[test]
fn getaddrs_zero_count_is_empty() {
    let mut buf = vec![0u8; GETADDRS_CAPACITY];
    buf[8] = 0x77;
    assert_eq!(getaddrs_outcome(&le(), 0, 0, &buf, GETADDRS_CAPACITY), Ok(vec![]));
}

#[test]
fn getaddrs_decodes_reported_count() {
    let list = vec![v4(10, 0, 0, 1, 1), v4(10, 0, 0, 2, 2)];
    let mut buf = vec![7, 0, 0, 0, 1, 0, 0, 0];
    buf.extend(encode(&le(), &list));
    buf.resize(GETADDRS_CAPACITY, 0);
    assert_eq!(getaddrs_outcome(&le(), 0, 0, &buf, 40), Ok(vec![list[0]]));
    buf[4] = 2;
    assert_eq!(getaddrs_outcome(&le(), 0, 0, &buf, 40), Ok(list));
    assert_eq!(getaddrs_outcome(&le(), -1, 22, &buf, 40), Err(SctpError::Os(22)));
    assert_eq!(getaddrs_outcome(&le(), 0, 0, &vec![0, 0], 2), Err(SctpError::Truncated));
}

#[test]
fn getaddrs_reads_only_reported_bytes() {
    let list = vec![v4(10, 0, 0, 1, 1), v4(10, 0, 0, 2, 2)];
    let mut buf = vec![7, 0, 0, 0, 2, 0, 0, 0];
    buf.extend(encode(&le(), &list));
    buf.resize(GETADDRS_CAPACITY, 0);
    assert_eq!(getaddrs_outcome(&le(), 0, 0, &buf, 39), Err(SctpError::Truncated));
    assert_eq!(getaddrs_outcome(&le(), 0, 0, &buf, 24), Err(SctpError::Truncated));
    assert_eq!(getaddrs_outcome(&le(), 0, 0, &buf, 6), Err(SctpError::Truncated));
}

#[test]
fn bindx_outcome_nonzero_is_error() {
    assert_eq!(bindx_outcome(0, 0), Ok(()));
    assert_eq!(bindx_outcome(1, 5), Err(SctpError::Os(5)));
    assert_eq!(bindx_outcome(-1, 98), Err(SctpError::Os(98)));
}

#[test]
fn bitfield_of_empty_set_is_disabled() {
    assert_eq!(to_bitfield(&vec![]), EventSubscribe::default());
}

#[test]
fn bitfield_sets_each_kind_once() {
    let kinds = vec![
        SctpEvent::DataIo,
        SctpEvent::Association,
        SctpEvent::Address,
        SctpEvent::SendFailure,
        SctpEvent::PeerError,
        SctpEvent::Shutdown,
        SctpEvent::PartialDelivery,
        SctpEvent::AdaptationLayer,
        SctpEvent::Authentication,
        SctpEvent::SenderDry,
        SctpEvent::StreamReset,
        SctpEvent::AssociationReset,
        SctpEvent::StreamChange,
        SctpEvent::SendFailureEvent,
    ];
    let mut seen: Vec<Vec<u8>> = vec![];
    for (i, k) in kinds.iter().enumerate() {
        let bytes = to_bitfield(&vec![*k]).to_bytes();
        let mut expected = vec![0u8; 14];
        expected[i] = 1;
        assert_eq!(bytes, expected);
        assert!(!seen.contains(&bytes));
        seen.push(bytes);
    }
    assert_eq!(to_bitfield(&kinds).to_bytes(), vec![1u8; 14]);
}

#[test]
fn bitfield_ignores_repeats() {
    let r = to_bitfield(&vec![SctpEvent::Shutdown, SctpEvent::Shutdown, SctpEvent::DataIo]);
    assert_eq!(r.shutdown, 1);
    assert_eq!(r.data_io, 1);
    assert_eq!(r.association, 0);
}

#[test]
fn subscribe_request_carries_record() {
    let call = subscribe_request(&le(), &vec![SctpEvent::Association]);
    assert_eq!(call.level, 132);
    assert_eq!(call.name, 11);
    assert_eq!(call.value, vec![0, 1, 0, 0, 0, 0, 0, 0, 0, 0, 0, 0, 0, 0]);
}

#[test]
fn socket_request_by_model() {
    let one = socket_request(&le(), 2, SocketToAssociation::OneToOne);
    assert_eq!((one.domain, one.sock_type, one.protocol), (2, 1, 132));
    let many = socket_request(&le(), 10, SocketToAssociation::OneToMany);
    assert_eq!((many.domain, many.sock_type, many.protocol), (10, 5, 132));
    assert_eq!(handle_outcome(4, 0), Ok(4));
    assert_eq!(handle_outcome(-1, 97), Err(SctpError::Os(97)));
}

#[test]
fn shutdown_flags() {
    assert_eq!(shutdown_flag(&le(), ShutdownHow::Read), 0);
    assert_eq!(shutdown_flag(&le(), ShutdownHow::Write), 1);
    assert_eq!(shutdown_flag(&le(), ShutdownHow::Both), 2);
}

#[test]
fn accept_decodes_written_peer_address() {
    let listener = 3;
    let mut buf = encode(&le(), &vec![v4(192, 168, 1, 5, 5000)]);
    buf.resize(ACCEPT_ADDR_CAPACITY, 0xee);
    let r = accept_outcome(&le(), 7, 0, &buf, 16);
    assert_eq!(r, Ok((7, v4(192, 168, 1, 5, 5000))));
    let (handle, _) = r.unwrap();
    assert_ne!(handle, listener);
}

#[test]
fn accept_failures() {
    let buf = encode(&le(), &vec![v4(192, 168, 1, 5, 5000)]);
    assert_eq!(accept_outcome(&le(), -1, 11, &buf, 16), Err(SctpError::Os(11)));
    assert_eq!(accept_outcome(&le(), 7, 0, &buf, 10), Err(SctpError::Truncated));
}
