use copra::controller::Controller;
use copra::examples::benchmark::MetricService;
use copra::examples::echo::EchoService;
use copra::examples::hello::HelloService;
use copra::examples::messages::{Empty, TextMessage};
use copra::examples::providers::{reversed, Echo, Hello, Metric};
use copra::protocol::http::HttpStatus;
use copra::service::ProviderSetError;
use std::sync::atomic::AtomicUsize;
use std::sync::Arc;

#[test]
fn echo_and_reverse() {
    let mut m = TextMessage::new();
    m.set_msg("héllo".to_string());
    let (r, _) = Echo.echo((m.clone(), Controller::default())).unwrap();
    assert_eq!(r.msg, "héllo");
    let (r, _) = Echo.rev_echo((m, Controller::default())).unwrap();
    assert_eq!(r.msg, "olléh");
    assert_eq!(reversed(""), "");
}

#[test]
fn hello_pages() {
    let (_, c) = Hello.hello_general((Empty::new(), Controller::default())).unwrap();
    assert_eq!(c.status, Some(HttpStatus::OK));
    assert_eq!(c.response_body, b"Hello from the server.\n".to_vec());
    assert_eq!(c.headers.get("Content-Type"), Some(&"text/plain".to_string()));
    let mut ctrl = Controller::default();
    ctrl.request_body = b"Bob".to_vec();
    let (_, c) = Hello.hello_to((Empty::new(), ctrl)).unwrap();
    assert_eq!(c.response_body, b"Hello to Bob.\n".to_vec());
    assert!(c.request_body.is_empty());
    let mut ctrl = Controller::default();
    ctrl.request_body = vec![0xff];
    assert_eq!(Hello.hello_to((Empty::new(), ctrl)).err(), Some(ProviderSetError::InvalidRequest));
}

#[test]
fn metric_page() {
    let metric = Metric::new(Arc::new(AtomicUsize::new(1234)));
    let (_, c) = metric.metric((Empty::new(), Controller::default())).unwrap();
    assert_eq!(c.response_body, b"Throughput: 1234".to_vec());
    assert_eq!(c.status, Some(HttpStatus::OK));
    let mut ctrl = Controller::default();
    Metric::report(0, &mut ctrl);
    assert_eq!(ctrl.response_body, b"Throughput: 0".to_vec());
}
