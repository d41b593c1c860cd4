use copra::codec::ProtoMessage;
use copra::examples::messages::{Empty, FlagMessage, NumberMessage, TextMessage};
use copra::message::{RpcMeta, RpcRequestMeta, RpcResponseMeta};

#[test]
fn text_message_encoding() {
    let mut m = TextMessage::new();
    assert_eq!(m.write_to_bytes(), Vec::<u8>::new());
    m.set_msg("hi".to_string());
    assert_eq!(m.write_to_bytes(), vec![0x0a, 0x02, b'h', b'i']);
    assert_eq!(TextMessage::parse_from_bytes(&[0x0a, 0x02, b'h', b'i']), Some(m.clone()));
    // Unknown fields are skipped; the last occurrence of the field counts.
    assert_eq!(
        TextMessage::parse_from_bytes(&[0x0a, 0x01, b'a', 0x10, 0x05, 0x0a, 0x02, b'h', b'i']),
        Some(m)
    );
    // Truncated, wrong wire type, not UTF-8.
    assert_eq!(TextMessage::parse_from_bytes(&[0x0a, 0x05, b'h']), None);
    assert_eq!(TextMessage::parse_from_bytes(&[0x08, 0x01]), None);
    assert_eq!(TextMessage::parse_from_bytes(&[0x0a, 0x01, 0xff]), None);
}

#[test]
fn number_and_flag_encoding() {
    let mut n = NumberMessage::new();
    n.number = 1;
    assert_eq!(n.write_to_bytes(), vec![0x08, 0x01]);
    assert_eq!(NumberMessage::parse_from_bytes(&[0x08, 0x96, 0x01]).map(|m| m.number), Some(150));
    let mut f = FlagMessage::new();
    f.flag = true;
    assert_eq!(f.write_to_bytes(), vec![0x08, 0x01]);
    assert_eq!(FlagMessage::parse_from_bytes(&[]), Some(FlagMessage::new()));
    // A flag is read as a 32-bit number: only the low bits count.
    assert_eq!(
        FlagMessage::parse_from_bytes(&[0x08, 0x80, 0x80, 0x80, 0x80, 0x10]).map(|m| m.flag),
        Some(false)
    );
}

#[test]
fn empty_message_skips_fields() {
    assert_eq!(Empty::new().write_to_bytes(), Vec::<u8>::new());
    assert_eq!(Empty::parse_from_bytes(&[0x08, 0x01, 0x12, 0x00]), Some(Empty::new()));
    assert_eq!(Empty::parse_from_bytes(&[0x08]), None);
}

#[test]
fn meta_round_trip() {
    let mut req = RpcRequestMeta::new();
    req.set_service_name("Echo".to_string());
    req.set_method_name("echo".to_string());
    let mut meta = RpcMeta::new();
    meta.set_request(req);
    meta.set_correlation_id(300);
    let bytes = meta.write_to_bytes();
    assert_eq!(
        bytes,
        vec![0x0a, 0x0c, 0x0a, 0x04, b'E', b'c', b'h', b'o', 0x12, 0x04, b'e', b'c', b'h', b'o', 0x20, 0xac, 0x02]
    );
    assert_eq!(RpcMeta::parse_from_bytes(&bytes), Some(meta));
    let mut resp = RpcResponseMeta::new();
    resp.set_error_code(2);
    let mut meta = RpcMeta::new();
    meta.set_response(resp);
    assert_eq!(RpcMeta::parse_from_bytes(&meta.write_to_bytes()), Some(meta));
}
