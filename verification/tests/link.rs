use bytes::Bytes;
use copra::link::{ConnectOutcome, IoOutcome, Link, LinkAction, LinkState, LinkStep};
use copra::message::RpcResponseMeta;
use copra::service::MethodError;
use copra::stub::errno_to_result;

#[test]
fn broken_stream_reconnects() {
    let mut link = Link::connected();
    assert_eq!(link.next_action(), LinkAction::UseStream);
    assert_eq!(link.io_done(IoOutcome::WouldBlock), LinkStep::ReturnOutcome);
    assert_eq!(link.state(), LinkState::Connected);
    assert_eq!(link.io_done(IoOutcome::Broken), LinkStep::Continue);
    assert_eq!(link.state(), LinkState::Disconnected);
    assert_eq!(link.next_action(), LinkAction::StartConnect);
    assert_eq!(link.state(), LinkState::Connecting);
    assert_eq!(link.next_action(), LinkAction::PollConnect);
    assert_eq!(link.connect_done(ConnectOutcome::Pending), LinkStep::ReturnWouldBlock);
    assert_eq!(link.connect_done(ConnectOutcome::Established), LinkStep::Continue);
    assert_eq!(link.next_action(), LinkAction::UseStream);
    assert_eq!(link.io_done(IoOutcome::Done), LinkStep::ReturnOutcome);
}

#[test]
fn failed_connect_and_shutdown() {
    let mut link = Link::connected();
    link.io_done(IoOutcome::Broken);
    link.next_action();
    assert_eq!(link.connect_done(ConnectOutcome::Failed), LinkStep::ReturnConnectError);
    assert_eq!(link.state(), LinkState::Disconnected);
    assert!(!link.shutdown());
    let mut open = Link::connected();
    assert!(open.shutdown());
    assert_eq!(open.state(), LinkState::Connected);
}

#[test]
fn error_codes_of_answers() {
    let body = Bytes::from(&b"abc"[..]);
    assert_eq!(errno_to_result((RpcResponseMeta::new(), body.clone())), Ok(body.clone()));
    let mut meta = RpcResponseMeta::new();
    meta.set_error_code(7);
    assert_eq!(errno_to_result((meta, body)), Err(MethodError::UnknownError));
}
