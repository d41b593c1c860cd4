use bytes::Bytes;
use copra::codec::{MethodCodec, ProtobufCodec};
use copra::controller::Controller;
use copra::dispatcher::{DispatchError, NamedRegistrant, Registrant, ServiceRegistry};
use copra::examples::echo::{EchoMethod, EchoRegistrant};
use copra::examples::messages::TextMessage;
use copra::examples::providers::Echo;
use copra::message::{RpcRequestMeta, RpcResponseMeta};
use copra::stub::RpcErrorKind;
use copra::service::{
    result_to_errno, CodecMethodBundle, EncapsulatedMethod, MetaService, MethodError,
    ProviderSetError, RequestProcessError, Service,
};

fn text(s: &str) -> TextMessage {
    let mut m = TextMessage::new();
    m.set_msg(s.to_string());
    m
}

fn encoded(s: &str) -> Bytes {
    let codec: ProtobufCodec<TextMessage, TextMessage> = ProtobufCodec::new();
    codec.encode(text(s)).unwrap()
}

fn decoded(b: Bytes) -> String {
    let codec: ProtobufCodec<TextMessage, TextMessage> = ProtobufCodec::new();
    codec.decode(b).unwrap().msg
}

#[derive(Clone)]
struct Refuse;

impl Service for Refuse {
    type Request = (TextMessage, Controller);
    type Response = (TextMessage, Controller);
    type Error = ProviderSetError;
    fn call(&self, _req: (TextMessage, Controller)) -> Result<(TextMessage, Controller), ProviderSetError> {
        Err(ProviderSetError::InvalidRequest)
    }
}

#[derive(Clone)]
struct Shout;

impl Service for Shout {
    type Request = (TextMessage, Controller);
    type Response = (TextMessage, Controller);
    type Error = MethodError;
    fn call(&self, req: (TextMessage, Controller)) -> Result<(TextMessage, Controller), MethodError> {
        Ok((text(&req.0.msg.to_uppercase()), req.1))
    }
}

fn echo_registry() -> ServiceRegistry<EchoMethod<Echo>> {
    let mut registry = ServiceRegistry::new();
    registry.register_service(EchoRegistrant::new(Echo));
    registry
}

#[test]
fn registrant_lists_methods() {
    let methods = EchoRegistrant::new(Echo).methods();
    let names: Vec<&str> = methods.iter().map(|m| m.0.as_str()).collect();
    assert_eq!(names, vec!["echo", "rev_echo"]);
    assert_eq!(<EchoRegistrant<Echo> as NamedRegistrant<EchoMethod<Echo>>>::name(), "Echo");
}

#[test]
fn meta_service_calls_method() {
    let service = MetaService::new(echo_registry());
    let mut meta = RpcRequestMeta::new();
    meta.set_service_name("Echo".to_string());
    meta.set_method_name("rev_echo".to_string());
    let (resp, _ctrl, body) = service.call((meta, Controller::default(), encoded("abc")));
    assert_eq!(resp, RpcResponseMeta::new());
    assert_eq!(decoded(body), "cba");
}

#[test]
fn meta_service_unknown_method_fails() {
    let service = MetaService::new(echo_registry());
    let mut meta = RpcRequestMeta::new();
    meta.set_service_name("Echo".to_string());
    meta.set_method_name("shout".to_string());
    let (resp, ctrl, body) = service.call((meta, Controller::default(), encoded("abc")));
    assert_eq!(resp.error_code, 5);
    assert_eq!(resp.error_text, "dispatch error: method shout not found in Echo");
    assert_eq!(ctrl, Controller::default());
    assert_eq!(body.len(), 0);
}

#[test]
fn meta_service_unknown_service_fails() {
    let service = MetaService::new(echo_registry());
    let mut meta = RpcRequestMeta::new();
    meta.set_service_name("Nope".to_string());
    meta.set_method_name("echo".to_string());
    let (resp, ctrl, body) = service.call((meta, Controller::default(), encoded("abc")));
    assert_eq!(resp.error_code, 4);
    assert_eq!(resp.error_text, "dispatch error: service Nope not found");
    assert_eq!(ctrl, Controller::default());
    assert_eq!(body.len(), 0);
}

#[test]
fn error_codes_name_kinds() {
    let errors = vec![
        (RequestProcessError::ProviderSetError(ProviderSetError::InvalidRequest), 1, RpcErrorKind::InvalidRequest),
        (RequestProcessError::ProviderSetError(ProviderSetError::InternalError), 2, RpcErrorKind::InteralServerError),
        (
            RequestProcessError::DispatchError(DispatchError::ServiceNotFound("s".to_string())),
            4,
            RpcErrorKind::ServiceNotFound,
        ),
        (
            RequestProcessError::DispatchError(DispatchError::MethodNotFound("s".to_string(), "m".to_string())),
            5,
            RpcErrorKind::MethodNotFound,
        ),
        (RequestProcessError::RequestDecodeError, 1, RpcErrorKind::InvalidRequest),
        (RequestProcessError::ResponseEncodeError, 2, RpcErrorKind::InteralServerError),
    ];
    for (e, code, kind) in errors {
        assert_eq!(e.error_code(), code);
        assert_eq!(RpcErrorKind::from_error_code(code), kind);
        assert_eq!(kind.error_code(), code);
    }
    assert_eq!(RpcErrorKind::from_error_code(0), RpcErrorKind::InteralServerError);
    assert_eq!(RpcErrorKind::from_error_code(11), RpcErrorKind::ChannelOvercrowded);
    assert_eq!(RpcErrorKind::from_error_code(-3), RpcErrorKind::InteralServerError);
}

#[test]
fn meta_service_bad_body_fails() {
    let service = MetaService::new(echo_registry());
    let mut meta = RpcRequestMeta::new();
    meta.set_service_name("Echo".to_string());
    meta.set_method_name("echo".to_string());
    let (resp, _, _) = service.call((meta, Controller::default(), Bytes::from(&b"\x0a\x09"[..])));
    assert_eq!(resp.error_code, 1);
    assert_eq!(resp.error_text, "failed to decode request");
}

#[test]
fn bundle_reports_each_failure() {
    let bundle = CodecMethodBundle::new(ProtobufCodec::<TextMessage, TextMessage>::new(), Refuse);
    assert_eq!(
        bundle.call((Bytes::from(&b"\xff"[..]), Controller::default())),
        Err(RequestProcessError::RequestDecodeError)
    );
    assert_eq!(
        bundle.call((encoded("x"), Controller::default())),
        Err(RequestProcessError::ProviderSetError(ProviderSetError::InvalidRequest))
    );
}

#[test]
fn encapsulated_method_calls_through() {
    let method = EncapsulatedMethod::new(ProtobufCodec::<TextMessage, TextMessage>::new(), Shout);
    let (body, _) = method.call((encoded("hey"), Controller::default())).unwrap();
    assert_eq!(decoded(body), "HEY");
    assert_eq!(
        method.call((Bytes::from(&b"\x0a"[..]), Controller::default())).err(),
        Some(MethodError::CodecError)
    );
}

#[test]
fn errno_of_outcomes() {
    let mut ctrl = Controller::default();
    ctrl.response_body = b"x".to_vec();
    let (meta, c, body) = result_to_errno::<MethodError>(Ok((Bytes::from(&b"b"[..]), ctrl.clone())));
    assert_eq!(meta.error_code, 0);
    assert_eq!(c, ctrl);
    assert_eq!(&body[..], b"b");
    let (meta, c, body) = result_to_errno(Err(MethodError::UnknownError));
    assert_eq!(meta.error_code, 1);
    assert_eq!(meta.error_text, "Unknown error");
    assert_eq!(c, Controller::default());
    assert!(body.is_empty());
}

#[test]
fn error_texts() {
    assert_eq!(ProviderSetError::InvalidRequest.to_string(), "the request message is invalid");
    assert_eq!(ProviderSetError::InternalError.description(), "internal server error");
    let e = RequestProcessError::from_provider_error(ProviderSetError::InternalError);
    assert_eq!(e.to_string(), "provider returned an error internal server error");
    assert_eq!(e.description(), "provider returned an error");
    let e = RequestProcessError::from_dispatch_error(DispatchError::ServiceNotFound("X".to_string()));
    assert_eq!(e.to_string(), "dispatch error: service X not found");
    assert_eq!(RequestProcessError::RequestDecodeError.to_string(), "failed to decode request");
    assert_eq!(RequestProcessError::ResponseEncodeError.description(), "failed to encode response");
    assert_eq!(MethodError::UnknownError.to_string(), "unknown error produced by server");
    assert_eq!(MethodError::CodecError.description(), "codec error");
}

fn assert_send<T: Send>() {}
fn assert_sync<T: Sync>() {}

#[test]
fn test_send() {
    assert_send::<MetaService<EchoMethod<Echo>>>();
}

#[test]
fn test_sync() {
    assert_sync::<MetaService<EchoMethod<Echo>>>();
}

#[test]
fn bundle_new_service_answers_alike() {
    let bundle = CodecMethodBundle::new(ProtobufCodec::<TextMessage, TextMessage>::new(), Refuse);
    let fresh = bundle.new_service();
    assert_eq!(
        fresh.call((encoded("x"), Controller::default())),
        bundle.call((encoded("x"), Controller::default()))
    );
}
