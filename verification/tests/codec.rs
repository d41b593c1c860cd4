use bytes::{Bytes, BytesMut};
use copra::controller::Controller;
use copra::message::{RpcMeta, RpcRequestMeta, RpcResponseMeta};
use copra::protocol::brpc::BrpcProtocol;
use copra::protocol::http::HttpProtocol;
use copra::protocol::{CodecError, ProtoCodec, ProtoCodecClient, Protocol, RpcProtocol};
use copra::server::ServerOption;

fn request(service: &str, method: &str) -> RpcRequestMeta {
    let mut req = RpcRequestMeta::new();
    req.set_service_name(service.to_string());
    req.set_method_name(method.to_string());
    req
}

fn both() -> ProtoCodec {
    ProtoCodec::new(&[RpcProtocol::Brpc(BrpcProtocol::new()), RpcProtocol::Http(HttpProtocol::new())])
}

#[test]
fn server_codec_falls_back_to_http() {
    let mut codec = both();
    let mut buf = BytesMut::new();
    buf.extend_from_slice(b"GET /Echo/echo HTTP/1.1\r\nCorrelation-Id: 3\r\n\r\n");
    let r = codec.decode(&mut buf).unwrap().unwrap();
    assert_eq!(r.0, 3);
    assert_eq!((r.1).0, request("Echo", "echo"));
    assert_eq!((r.1).2, Bytes::new());
    // The protocol that matched answers the response.
    let mut ctrl = Controller::default();
    ctrl.response_body = b"ok".to_vec();
    let mut out = BytesMut::new();
    codec.encode((3, (RpcResponseMeta::new(), ctrl, Bytes::new())), &mut out);
    assert_eq!(&out[..], &b"HTTP/1.1 200 OK\r\nContent-Length: 2\r\n\r\nok"[..]);
}

#[test]
fn server_codec_round_trips_brpc() {
    let mut client = ProtoCodecClient::new(RpcProtocol::Brpc(BrpcProtocol::new()));
    let mut wire = BytesMut::new();
    client.encode((9, (request("Demo", "greet_to"), Bytes::from(&b"\x0a\x02hi"[..]))), &mut wire);
    let mut server = both();
    let (id, (req, _ctrl, body)) = server.decode(&mut wire).unwrap().unwrap();
    assert_eq!(id, 9);
    assert_eq!(req, request("Demo", "greet_to"));
    assert_eq!(&body[..], b"\x0a\x02hi");
    let mut resp = RpcResponseMeta::new();
    resp.set_error_code(0);
    let mut back = BytesMut::new();
    server.encode((id, (resp, Controller::default(), Bytes::from(&b"\x0a\x02yo"[..]))), &mut back);
    let (rid, (rmeta, rbody)) = client.decode(&mut back).unwrap().unwrap();
    assert_eq!(rid, 9);
    assert_eq!(rmeta, RpcResponseMeta::new());
    assert_eq!(&rbody[..], b"\x0a\x02yo");
}

#[test]
fn server_codec_needs_more_bytes() {
    let mut codec = both();
    let mut buf = BytesMut::new();
    buf.extend_from_slice(b"PR");
    assert_eq!(codec.decode(&mut buf), Ok(None));
}

#[test]
fn server_codec_refuses_unknown_protocol() {
    let mut codec = ProtoCodec::new(&[RpcProtocol::Brpc(BrpcProtocol::new())]);
    let mut buf = BytesMut::new();
    buf.extend_from_slice(b"HELLO WORLD");
    assert_eq!(codec.decode(&mut buf), Err(CodecError::NoProtocolMatched));
}

#[test]
fn server_codec_reports_invalid_package() {
    let mut codec = both();
    let mut buf = BytesMut::new();
    buf.extend_from_slice(b"GET /only HTTP/1.1\r\n\r\n");
    assert_eq!(codec.decode(&mut buf), Err(CodecError::InvalidPackage));
}

#[test]
fn client_codec_needs_a_response_part() {
    let brpc = BrpcProtocol::new();
    let mut meta = RpcMeta::new();
    meta.set_request(request("A", "b"));
    let mut buf = BytesMut::new();
    brpc.write_package((meta, Controller::default(), Bytes::new()), &mut buf);
    let mut client = ProtoCodecClient::new(RpcProtocol::Brpc(BrpcProtocol::new()));
    assert_eq!(client.decode(&mut buf), Err(CodecError::MissingResponse));
}

#[test]
fn client_codec_refuses_other_protocols() {
    let mut client = ProtoCodecClient::new(RpcProtocol::Brpc(BrpcProtocol::new()));
    let mut buf = BytesMut::new();
    buf.extend_from_slice(b"HTTP/1.1 200 OK\r\n");
    assert_eq!(client.decode(&mut buf), Err(CodecError::InvalidPackage));
}

#[test]
fn server_option_default_schemes() {
    let option = ServerOption::default();
    assert_eq!(option.protocols, vec![Protocol::Brpc, Protocol::Http]);
    let schemes = option.schemes();
    assert_eq!(schemes.len(), 2);
    assert_eq!(schemes[0].name(), "brpc");
    assert_eq!(schemes[1].name(), "http");
    assert_eq!(RpcProtocol::of(Protocol::Http).name(), "http");
}

#[test]
fn matched_protocol_is_kept_for_later_requests() {
    let mut codec = both();
    let mut buf = BytesMut::new();
    buf.extend_from_slice(b"GET /A/b HTTP/1.1\r\n\r\nGET /C/d HTTP/1.1\r\nCorrelation-Id: 2\r\n\r\n");
    let first = codec.decode(&mut buf).unwrap().unwrap();
    assert_eq!((first.1).0, request("A", "b"));
    let second = codec.decode(&mut buf).unwrap().unwrap();
    assert_eq!(second.0, 2);
    assert_eq!((second.1).0, request("C", "d"));
    assert!(buf.is_empty());
    let mut out = BytesMut::new();
    let mut ctrl = Controller::default();
    ctrl.status = Some(copra::protocol::http::HttpStatus::Forbidden);
    codec.encode((2, (RpcResponseMeta::new(), ctrl, Bytes::new())), &mut out);
    assert_eq!(&out[..], &b"HTTP/1.1 403 Forbidden\r\n"[..]);
}
