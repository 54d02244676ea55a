use sctp_rs::address::{decode_list, decode_list_from, decode_one, encode, SockAddr, SockAddrV4, SockAddrV6};
use sctp_rs::error::SctpError;
use sctp_rs::platform::{ByteOrder, Platform};

fn le() -> Platform {
    Platform::linux(ByteOrder::Little)
}

fn v4(a: u8, b: u8, c: u8, d: u8, port: u16) -> SockAddr {
    SockAddr::V4(SockAddrV4 { ip: [a, b, c, d], port })
}

fn v6_sample() -> SockAddr {
    let mut ip = [0u8; 16];
    ip[0] = 0xfe;
    ip[1] = 0x80;
    ip[15] = 1;
    SockAddr::V6(SockAddrV6 { ip, port: 9000, flowinfo: 0x0102_0304, scope_id: 3 })
}

#[test]
fn encode_ipv4_record_layout() {
    let bytes = encode(&le(), &vec![v4(192, 168, 1, 5, 5000)]);
    assert_eq!(
        bytes,
        vec![2, 0, 0x13, 0x88, 192, 168, 1, 5, 0, 0, 0, 0, 0, 0, 0, 0]
    );
}

#[test]
fn encode_ipv6_record_layout() {
    let bytes = encode(&le(), &vec![v6_sample()]);
    let mut expected = vec![10, 0, 0x23, 0x28, 4, 3, 2, 1];
    let mut ip = vec![0u8; 16];
    ip[0] = 0xfe;
    ip[1] = 0x80;
    ip[15] = 1;
    expected.extend(ip);
    expected.extend(vec![3, 0, 0, 0]);
    assert_eq!(bytes.len(), 28);
    assert_eq!(bytes, expected);
}

#[test]
fn encode_big_endian_family_tag() {
    let bytes = encode(&Platform::linux(ByteOrder::Big), &vec![v4(1, 2, 3, 4, 1)]);
    assert_eq!(&bytes[0..4], &[0, 2, 0, 1]);
}

#[test]
fn encode_empty_list_is_empty() {
    assert!(encode(&le(), &vec![]).is_empty());
}

#[test]
fn round_trip_mixed_list_keeps_order() {
    let list = vec![v4(10, 0, 0, 1, 80), v6_sample(), v4(127, 0, 0, 1, 0), v6_sample()];
    let bytes = encode(&le(), &list);
    assert_eq!(bytes.len(), 16 + 28 + 16 + 28);
    assert_eq!(decode_list(&le(), &bytes, list.len()), Ok(list.clone()));
    let be = Platform::linux(ByteOrder::Big);
    let bytes = encode(&be, &list);
    assert_eq!(decode_list(&be, &bytes, list.len()), Ok(list));
}

#[test]
fn decode_one_unsupported_family() {
    let mut bytes = encode(&le(), &vec![v4(10, 0, 0, 1, 80)]);
    bytes[0] = 7;
    assert_eq!(
        decode_one(&le(), &bytes, 0),
        Err(SctpError::UnsupportedAddressFamily(7))
    );
}

#[test]
fn decode_one_reports_consumed_bytes() {
    let bytes = encode(&le(), &vec![v6_sample(), v4(1, 1, 1, 1, 1)]);
    assert_eq!(decode_one(&le(), &bytes, 0), Ok((v6_sample(), 28)));
    assert_eq!(decode_one(&le(), &bytes, 28), Ok((v4(1, 1, 1, 1, 1), 16)));
}

#[test]
fn decode_one_truncated_record() {
    let bytes = encode(&le(), &vec![v4(10, 0, 0, 1, 80)]);
    let short = bytes[0..15].to_vec();
    assert_eq!(decode_one(&le(), &short, 0), Err(SctpError::Truncated));
    assert_eq!(decode_one(&le(), &bytes, 15), Err(SctpError::Truncated));
    assert_eq!(decode_one(&le(), &bytes, 40), Err(SctpError::Truncated));
}

#[test]
fn decode_list_stops_at_count() {
    let list = vec![v4(10, 0, 0, 1, 1), v4(10, 0, 0, 2, 2), v4(10, 0, 0, 3, 3)];
    let bytes = encode(&le(), &list);
    assert_eq!(decode_list(&le(), &bytes, 2), Ok(list[0..2].to_vec()));
    assert_eq!(decode_list(&le(), &bytes, 0), Ok(vec![]));
}

#[test]
fn decode_list_propagates_first_failure() {
    let mut bytes = encode(&le(), &vec![v4(10, 0, 0, 1, 1), v4(10, 0, 0, 2, 2)]);
    bytes[16] = 99;
    assert_eq!(
        decode_list(&le(), &bytes, 2),
        Err(SctpError::UnsupportedAddressFamily(99))
    );
    assert_eq!(decode_list(&le(), &bytes, 3), Err(SctpError::UnsupportedAddressFamily(99)));
}

#[test]
fn decode_list_past_end_is_truncated() {
    let bytes = encode(&le(), &vec![v4(10, 0, 0, 1, 1)]);
    assert_eq!(decode_list(&le(), &bytes, 2), Err(SctpError::Truncated));
}

#[test]
fn decode_list_from_offset() {
    let mut bytes = vec![0xaa, 0xbb, 0xcc];
    bytes.extend(encode(&le(), &vec![v6_sample()]));
    assert_eq!(decode_list_from(&le(), &bytes, 3, 1), Ok(vec![v6_sample()]));
}
