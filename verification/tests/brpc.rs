use bytes::{BufMut, Bytes, BytesMut};
use copra::controller::Controller;
use copra::message::{RpcMeta, RpcRequestMeta, RpcResponseMeta};
use copra::protocol::brpc::BrpcProtocol;
use copra::protocol::ProtocolError;
use rand::{Rng, SeedableRng, XorShiftRng};

const CORRELATION_ID: u64 = 10_u64;
const SERVICE: &'static str = "TestService";
const METHOD: &'static str = "TestMethod";
const SEED: [u32; 4] = [100, 200, 300, 400];

fn push_varint(out: &mut Vec<u8>, mut v: u64) {
    while v >= 0x80 {
        out.push((v as u8 & 0x7f) | 0x80);
        v >>= 7;
    }
    out.push(v as u8);
}

// The protobuf encoding of a test message: a string (field 1), an int32
// (field 2) and a float (field 3).
fn test_message_bytes(s: &str, i: i32, f: f32) -> Bytes {
    let mut out = Vec::new();
    out.push(0x0a);
    push_varint(&mut out, s.len() as u64);
    out.extend_from_slice(s.as_bytes());
    out.push(0x10);
    push_varint(&mut out, i as i64 as u64);
    out.push(0x1d);
    out.extend_from_slice(&f.to_bits().to_le_bytes());
    Bytes::from(out)
}

fn get_test_message() -> Bytes {
    test_message_bytes("testing_testing", 1234567_i32, 123.456789_f32)
}

fn request_meta() -> RpcMeta {
    let mut request_meta = RpcRequestMeta::new();
    request_meta.set_service_name(SERVICE.to_string());
    request_meta.set_method_name(METHOD.to_string());
    let mut meta = RpcMeta::new();
    meta.set_correlation_id(CORRELATION_ID);
    meta.set_request(request_meta);
    meta
}

#[test]
fn split_randomly_to_simulate_incomplete_receive() {
    let mut brpc_codec = BrpcProtocol::new();

    let meta = request_meta();
    let controller = Controller::default();
    let body_bytes = get_test_message();

    let mut buf = BytesMut::new();
    brpc_codec.write_package((meta.clone(), controller.clone(), body_bytes.clone()), &mut buf);

    let max_segment_num = 5;
    let repeat_num = 5;

    let mut rng = XorShiftRng::from_seed(SEED.clone());
    for segment_num in 1..max_segment_num {
        for _ in 0..repeat_num {
            let mut unfeeded_bytes = buf.clone();
            let mut simulated_buf = BytesMut::with_capacity(unfeeded_bytes.len());

            for seg_id in 1..segment_num {
                let len = unfeeded_bytes.len();
                let split_point = rng.gen_range::<usize>(1, len + seg_id + 1 - segment_num);
                let feed = unfeeded_bytes.split_to(split_point);
                simulated_buf.put_slice(feed.as_ref());

                let result = brpc_codec.try_parse(&mut simulated_buf);
                assert_eq!(result, Err(ProtocolError::NeedMoreBytes));
            }

            simulated_buf.put_slice(unfeeded_bytes.as_ref());
            let result = brpc_codec.try_parse(&mut simulated_buf);
            assert_eq!(
                result,
                Ok((CORRELATION_ID, (meta.clone(), controller.clone(), body_bytes.clone())))
            );
        }
    }
}

#[test]
fn brpc_frame_layout() {
    let codec = BrpcProtocol::new();
    let mut meta = RpcMeta::new();
    meta.set_correlation_id(1);
    let mut buf = BytesMut::new();
    codec.write_package((meta, Controller::default(), Bytes::from(&b"xy"[..])), &mut buf);
    // magic, package length 4 (meta 2 + body 2), meta length 2, meta
    // (field 4 = 1), body.
    assert_eq!(
        &buf[..],
        &[b'P', b'R', b'P', b'C', 0, 0, 0, 4, 0, 0, 0, 2, 0x20, 0x01, b'x', b'y'][..]
    );
}

#[test]
fn brpc_round_trip_leaves_rest() {
    let mut codec = BrpcProtocol::new();
    let mut meta = RpcMeta::new();
    let mut resp = RpcResponseMeta::new();
    resp.set_error_code(-3);
    resp.set_error_text("bad".to_string());
    meta.set_response(resp);
    meta.set_correlation_id(77);
    let body = Bytes::from(&b"hello"[..]);
    let mut buf = BytesMut::new();
    codec.write_package((meta.clone(), Controller::default(), body.clone()), &mut buf);
    buf.extend_from_slice(b"PR");
    let r = codec.try_parse(&mut buf);
    assert_eq!(r, Ok((77, (meta, Controller::default(), body))));
    assert_eq!(&buf[..], b"PR");
    assert_eq!(codec.try_parse(&mut buf), Err(ProtocolError::NeedMoreBytes));
}

#[test]
fn brpc_other_magic_tries_others() {
    let mut codec = BrpcProtocol::new();
    let mut buf = BytesMut::new();
    buf.extend_from_slice(b"GET / HTTP/1.1\r\n");
    assert_eq!(codec.try_parse(&mut buf), Err(ProtocolError::TryOthers));
    assert_eq!(buf.len(), 16);
}

#[test]
fn brpc_short_input_needs_more() {
    let mut codec = BrpcProtocol::new();
    let mut buf = BytesMut::new();
    buf.extend_from_slice(b"PRP");
    assert_eq!(codec.try_parse(&mut buf), Err(ProtocolError::NeedMoreBytes));
    buf.extend_from_slice(b"C\0\0");
    assert_eq!(codec.try_parse(&mut buf), Err(ProtocolError::NeedMoreBytes));
}

#[test]
fn brpc_broken_meta_is_absolutely_wrong() {
    let mut codec = BrpcProtocol::new();
    let mut buf = BytesMut::new();
    // package length 2, meta length 2, meta is a truncated field.
    buf.extend_from_slice(&[b'P', b'R', b'P', b'C', 0, 0, 0, 2, 0, 0, 0, 2, 0x0a, 0x05]);
    assert_eq!(codec.try_parse(&mut buf), Err(ProtocolError::AbsolutelyWrong));
}

#[test]
fn brpc_name() {
    assert_eq!(BrpcProtocol::new().name(), "brpc");
}

#[test]
fn brpc_meta_longer_than_package_is_absolutely_wrong() {
    let mut codec = BrpcProtocol::new();
    let mut buf = BytesMut::new();
    buf.extend_from_slice(b"PRPC");
    buf.extend_from_slice(&[0, 0, 0, 2, 0, 0, 0, 100, 0, 0]);
    assert_eq!(codec.try_parse(&mut buf), Err(ProtocolError::AbsolutelyWrong));
    assert_eq!(buf.len(), 2);
}

#[test]
fn brpc_copy_keeps_progress() {
    let mut codec = BrpcProtocol::new();
    let mut buf = BytesMut::new();
    buf.extend_from_slice(&[b'P', b'R', b'P', b'C', 0, 0, 0, 4, 0, 0, 0, 2]);
    assert_eq!(codec.try_parse(&mut buf), Err(ProtocolError::NeedMoreBytes));
    let mut copy = codec.new_boxed();
    let mut a = BytesMut::new();
    a.extend_from_slice(&[0x20, 0x01, b'x', b'y']);
    let mut b = a.clone();
    let first = codec.try_parse(&mut a);
    assert_eq!(copy.try_parse(&mut b), first);
    assert!(first.is_ok());
}
