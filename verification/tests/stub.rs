use copra::channel::ChannelError;
use bytes::Bytes;
use copra::codec::{MethodCodec, ProtobufCodec};
use copra::examples::demo::DemoStub;
use copra::examples::echo::EchoStub;
use copra::examples::messages::{NumberMessage, TextMessage};
use copra::load_balancer::CallInfo;
use copra::message::RpcResponseMeta;
use copra::stub::{RpcError, RpcErrorKind, RpcInfo};

fn text(s: &str) -> TextMessage {
    let mut m = TextMessage::new();
    m.set_msg(s.to_string());
    m
}

#[test]
fn stub_names_service_and_method() {
    let stub = EchoStub::new();
    let (sent, _fut) = stub.rev_echo(text("HelloWorld"));
    let (meta, body) = sent.unwrap();
    assert_eq!(meta.get_service_name(), "Echo");
    assert_eq!(meta.get_method_name(), "rev_echo");
    assert_eq!(&body[..], b"\x0a\x0aHelloWorld");
}

#[test]
fn demo_stub_encodes_numbers() {
    let stub = DemoStub::new();
    let mut m = NumberMessage::new();
    m.number = 300;
    let (sent, _) = stub.is_prime(m);
    let (meta, body) = sent.unwrap();
    assert_eq!(meta.get_method_name(), "is_prime");
    assert_eq!(&body[..], &[0x08, 0xac, 0x02][..]);
}

#[test]
fn success_echo_resolves() {
    let stub = EchoStub::new();
    let msg = text("HelloWorld");
    let (_, fut) = stub.echo(msg.clone());
    let codec: ProtobufCodec<TextMessage, TextMessage> = ProtobufCodec::new();
    let body = codec.encode(msg.clone()).unwrap();
    let (result, feedback) = fut.resolve((RpcResponseMeta::new(), body));
    let (resp, info) = result.unwrap();
    assert_eq!(resp, msg);
    assert_eq!(info, RpcInfo);
    assert_eq!(feedback, Some(CallInfo::new(0, None)));
}

#[test]
fn bad_body_message_is_a_decode_error() {
    let stub = EchoStub::new();
    let (_, fut) = stub.echo(text("HelloWorld"));
    let mut body = b"\x0a\x0aHelloWorld".to_vec();
    for e in body.iter_mut().take(4) {
        *e = 0;
    }
    let (result, feedback) = fut.resolve((RpcResponseMeta::new(), Bytes::from(body)));
    let err = result.unwrap_err();
    assert_eq!(err.kind(), RpcErrorKind::ResponseDecodeError);
    assert_eq!(err.text(), "response decode error");
    assert_eq!(feedback, None);
}

#[test]
fn rpc_error_parts() {
    let e = RpcError::new(RpcErrorKind::TimeOut, "late".to_string());
    assert_eq!(e.kind(), RpcErrorKind::TimeOut);
    assert_eq!(e.text(), "late");
    let info = CallInfo::new(42, Some(RpcErrorKind::ServerOvercrowded));
    assert_eq!(info.start_usec, 42);
    assert_eq!(info.error, Some(RpcErrorKind::ServerOvercrowded));
}

#[test]
fn failed_answer_resolves_to_its_kind() {
    let stub = EchoStub::new();
    let (_, fut) = stub.echo(text("HelloWorld"));
    let mut meta = RpcResponseMeta::new();
    meta.set_error_code(5);
    meta.set_error_text("dispatch error: method shout not found in Echo".to_string());
    let (result, feedback) = fut.resolve((meta, Bytes::new()));
    let err = result.unwrap_err();
    assert_eq!(err.kind(), RpcErrorKind::MethodNotFound);
    assert_eq!(err.text(), "dispatch error: method shout not found in Echo");
    assert_eq!(feedback, Some(CallInfo::new(0, Some(RpcErrorKind::MethodNotFound))));
}

#[test]
fn channel_failures_become_call_errors() {
    let e = RpcError::from_channel_error(&ChannelError::ConcurrencyLimitReached);
    assert_eq!(e.kind(), RpcErrorKind::ChannelOvercrowded);
    assert_eq!(e.text(), "Concurrency limit reached");
    let io = std::io::Error::new(std::io::ErrorKind::Other, "reset");
    let e = RpcError::from_channel_error(&ChannelError::IoError(io));
    assert_eq!(e.kind(), RpcErrorKind::BrokenConnection);
    assert_eq!(e.text(), "Io error: reset");
    let e = RpcError::from_channel_error(&ChannelError::UnknownError);
    assert_eq!(e.kind(), RpcErrorKind::InteralServerError);
}

#[test]
fn errors_are_equal_by_kind_and_text() {
    let a = RpcError::new(RpcErrorKind::TimeOut, "late".to_string());
    assert_eq!(a.kind(), RpcErrorKind::TimeOut);
    assert_eq!(a.text(), "late");
    assert_eq!(a, RpcError::new(RpcErrorKind::TimeOut, "late".to_string()));
    assert_ne!(a, RpcError::new(RpcErrorKind::TimeOut, "early".to_string()));
    assert_ne!(a, RpcError::new(RpcErrorKind::BrokenConnection, "late".to_string()));
}
