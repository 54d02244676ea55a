use sctp_rs::error::SctpError;
use sctp_rs::notification::{decode_notification, receive_outcome, SctpNotification, SctpNotificationOrData};
use sctp_rs::platform::{ByteOrder, Platform};

fn le() -> Platform {
    Platform::linux(ByteOrder::Little)
}

fn assoc_change_bytes() -> Vec<u8> {
    vec![
        0x01, 0x80, // type
        0x02, 0x00, // flags
        0x18, 0x00, 0x00, 0x00, // length
        0x03, 0x00, // state
        0x04, 0x00, // error
        0x05, 0x00, // outbound streams
        0x06, 0x00, // inbound streams
        0xff, 0xff, 0xff, 0xff, // association id
        0xa1, 0xa2, 0xa3, 0xa4, // info
    ]
}

#[test]
fn decode_association_change_fields() {
    match decode_notification(&le(), &assoc_change_bytes()) {
        Ok(SctpNotification::AssociationChange(ac)) => {
            assert_eq!(ac.assoc_type, 0x8001);
            assert_eq!(ac.flags, 2);
            assert_eq!(ac.length, 24);
            assert_eq!(ac.state, 3);
            assert_eq!(ac.error, 4);
            assert_eq!(ac.ob_streams, 5);
            assert_eq!(ac.ib_streams, 6);
            assert_eq!(ac.assoc_id, -1);
            assert_eq!(ac.info, vec![0xa1, 0xa2, 0xa3, 0xa4]);
        }
        other => panic!("unexpected {:?}", other),
    }
}

#[test]
fn decode_association_change_header_only() {
    let bytes = assoc_change_bytes()[0..20].to_vec();
    match decode_notification(&le(), &bytes) {
        Ok(SctpNotification::AssociationChange(ac)) => assert!(ac.info.is_empty()),
        other => panic!("unexpected {:?}", other),
    }
}

#[test]
fn decode_other_tag_is_unsupported() {
    assert_eq!(
        decode_notification(&le(), &vec![0x02, 0x80, 1, 2, 3]),
        Ok(SctpNotification::Unsupported)
    );
    assert_eq!(decode_notification(&le(), &vec![0, 0]), Ok(SctpNotification::Unsupported));
}

#[test]
fn decode_short_records_are_truncated() {
    assert_eq!(decode_notification(&le(), &vec![0x01]), Err(SctpError::Truncated));
    let bytes = assoc_change_bytes()[0..19].to_vec();
    assert_eq!(decode_notification(&le(), &bytes), Err(SctpError::Truncated));
}

#[test]
fn receive_data_is_cut_to_received_length() {
    let buf = vec![1, 2, 3, 4, 5, 0, 0, 0];
    assert_eq!(
        receive_outcome(&le(), 5, 0, 0, buf),
        Ok(SctpNotificationOrData::Data(vec![1, 2, 3, 4, 5]))
    );
}

#[test]
fn receive_notification_is_decoded() {
    let mut buf = assoc_change_bytes();
    let n = buf.len() as isize;
    buf.resize(64, 0);
    match receive_outcome(&le(), n, 0, 0x8000, buf) {
        Ok(SctpNotificationOrData::Notification(SctpNotification::AssociationChange(ac))) => {
            assert_eq!(ac.info, vec![0xa1, 0xa2, 0xa3, 0xa4]);
        }
        other => panic!("unexpected {:?}", other),
    }
}

#[test]
fn receive_failure_is_os_error() {
    assert_eq!(receive_outcome(&le(), -1, 104, 0, vec![0; 4]), Err(SctpError::Os(104)));
}
