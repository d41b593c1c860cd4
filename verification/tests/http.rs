use bytes::{Bytes, BytesMut};
use copra::controller::Controller;
use copra::message::{RpcMeta, RpcRequestMeta};
use copra::protocol::http::{parse_name, HttpProtocol, HttpStatus};
use copra::protocol::ProtocolError;

fn expected_meta(service: &str, method: &str, id: u64) -> RpcMeta {
    let mut req = RpcRequestMeta::new();
    req.set_service_name(service.to_string());
    req.set_method_name(method.to_string());
    let mut meta = RpcMeta::new();
    meta.set_request(req);
    meta.set_correlation_id(id);
    meta
}

#[test]
fn http_request_is_parsed() {
    let mut proto = HttpProtocol::new();
    let mut buf = BytesMut::new();
    buf.extend_from_slice(b"POST /Echo/echo HTTP/1.1\r\nCorrelation-Id: 5\r\nContent-Length: 3\r\n\r\nabcrest");
    let r = proto.try_parse(&mut buf);
    let mut ctrl = Controller::default();
    ctrl.http_url = Some("/Echo/echo".to_string());
    ctrl.headers.insert("Correlation-Id".to_string(), "5".to_string());
    ctrl.headers.insert("Content-Length".to_string(), "3".to_string());
    ctrl.request_body = b"abc".to_vec();
    assert_eq!(r, Ok((5, (expected_meta("Echo", "echo", 5), ctrl, Bytes::new()))));
    assert_eq!(&buf[..], b"rest");
}

#[test]
fn http_body_arrives_later() {
    let mut proto = HttpProtocol::new();
    let mut buf = BytesMut::new();
    buf.extend_from_slice(b"GET /Hello/hello_to HTTP/1.1\r\nContent-Length: 4\r\n\r\nBo");
    assert_eq!(proto.try_parse(&mut buf), Err(ProtocolError::NeedMoreBytes));
    buf.extend_from_slice(b"b!");
    let r = proto.try_parse(&mut buf).unwrap();
    assert_eq!(r.0, 0);
    assert_eq!(r.1 .0, expected_meta("Hello", "hello_to", 0));
    assert_eq!(r.1 .1.request_body, b"Bob!".to_vec());
    assert_eq!(buf.len(), 0);
}

#[test]
fn http_partial_head_needs_more() {
    let mut proto = HttpProtocol::new();
    let mut buf = BytesMut::new();
    buf.extend_from_slice(b"GET /Hello/hello_to HTTP/1.1\r\nContent-Le");
    assert_eq!(proto.try_parse(&mut buf), Err(ProtocolError::NeedMoreBytes));
}

#[test]
fn http_target_without_method_is_refused() {
    let mut proto = HttpProtocol::new();
    let mut buf = BytesMut::new();
    buf.extend_from_slice(b"GET /Hello HTTP/1.1\r\n\r\n");
    assert_eq!(proto.try_parse(&mut buf), Err(ProtocolError::AbsolutelyWrong));
}

#[test]
fn http_bad_length_is_refused() {
    let mut proto = HttpProtocol::new();
    let mut buf = BytesMut::new();
    buf.extend_from_slice(b"GET /A/b HTTP/1.1\r\nContent-Length: x1\r\n\r\n");
    assert_eq!(proto.try_parse(&mut buf), Err(ProtocolError::AbsolutelyWrong));
}

#[test]
fn http_not_a_request_is_absolutely_wrong() {
    let mut proto = HttpProtocol::new();
    let mut buf = BytesMut::new();
    buf.extend_from_slice(b"PRPC\0\0\0\0\0\0\0\0");
    assert_eq!(proto.try_parse(&mut buf), Err(ProtocolError::AbsolutelyWrong));
}

#[test]
fn http_response_ok() {
    let proto = HttpProtocol::new();
    let mut ctrl = Controller::default();
    ctrl.status = Some(HttpStatus::OK);
    ctrl.response_body = b"hi".to_vec();
    ctrl.set_content_type("text/plain");
    let mut buf = BytesMut::new();
    proto.write_package((RpcMeta::new(), ctrl, Bytes::new()), &mut buf);
    assert_eq!(
        &buf[..],
        &b"HTTP/1.1 200 OK\r\nContent-Type: text/plain\r\nContent-Length: 2\r\n\r\nhi"[..]
    );
}

#[test]
fn http_response_keeps_given_length() {
    let proto = HttpProtocol::new();
    let mut ctrl = Controller::default();
    ctrl.headers.insert("Content-Length".to_string(), "9".to_string());
    ctrl.response_body = b"abc".to_vec();
    let mut buf = BytesMut::new();
    proto.write_package((RpcMeta::new(), ctrl, Bytes::new()), &mut buf);
    assert_eq!(&buf[..], &b"HTTP/1.1 200 OK\r\nContent-Length: 9\r\n\r\nabc"[..]);
}

#[test]
fn http_response_forbidden() {
    let proto = HttpProtocol::new();
    let mut ctrl = Controller::default();
    ctrl.status = Some(HttpStatus::Forbidden);
    ctrl.response_body = b"ignored".to_vec();
    let mut buf = BytesMut::new();
    proto.write_package((RpcMeta::new(), ctrl, Bytes::new()), &mut buf);
    assert_eq!(&buf[..], &b"HTTP/1.1 403 Forbidden\r\n"[..]);
}

#[test]
fn http_status_codes() {
    assert_eq!(HttpStatus::OK.to_code(), 200);
    assert_eq!(HttpStatus::Forbidden.to_code(), 403);
    assert_eq!(HttpStatus::OK.to_status_line(), "200 OK");
    assert_eq!(HttpStatus::Forbidden.to_status_line(), "403 Forbidden");
}

#[test]
fn http_target_names() {
    assert_eq!(parse_name("/Echo/echo"), Some(("Echo".to_string(), "echo".to_string())));
    assert_eq!(parse_name("//Echo//echo/x"), Some(("Echo".to_string(), "echo".to_string())));
    assert_eq!(parse_name("/Echo"), None);
    let proto = HttpProtocol::new();
    assert_eq!(proto.parse_name("/A/b"), Ok(("A".to_string(), "b".to_string())));
    assert_eq!(proto.parse_name("/A"), Err(ProtocolError::AbsolutelyWrong));
    assert_eq!(proto.name(), "http");
}

#[test]
fn content_type_is_set() {
    let mut ctrl = Controller::default();
    ctrl.set_content_type("text/html");
    ctrl.set_content_type("text/plain");
    assert_eq!(ctrl.headers.len(), 1);
    assert_eq!(ctrl.headers.get("Content-Type"), Some(&"text/plain".to_string()));
}
