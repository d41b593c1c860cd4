use copra::load_balancer::{CallInfo, LoadBalance, SingleServerLoadBalancer};
use copra::channel::{CallCounter, ChannelError, Transport};
use copra::monitor::TrafficCounting;

#[test]
fn calls_stay_within_the_limit() {
    let mut counter = CallCounter::new(2);
    assert!(!counter.congested());
    assert!(counter.try_admit());
    assert!(counter.try_admit());
    assert!(counter.congested());
    assert!(!counter.try_admit());
    counter.release();
    assert!(!counter.congested());
    assert!(counter.try_admit());
}

#[test]
fn zero_limit_admits_nothing() {
    let mut counter = CallCounter::new(0);
    assert!(counter.congested());
    assert!(!counter.try_admit());
}

#[test]
fn channel_error_texts() {
    assert_eq!(ChannelError::ConcurrencyLimitReached.to_string(), "Concurrency limit reached");
    assert_eq!(ChannelError::UnknownError.description(), "[WIP] other errors");
    let e = ChannelError::IoError(std::io::Error::new(std::io::ErrorKind::Other, "pipe"));
    assert_eq!(e.to_string(), "Io error: pipe");
    assert_eq!(e.description(), "io error from TCP socket");
}

#[test]
fn transport_wraps_io() {
    let mut t = Transport::new(vec![1u8]);
    t.get_mut().push(2);
    assert_eq!(t.into_inner(), vec![1, 2]);
}

#[test]
fn traffic_is_counted_once() {
    let mut c = TrafficCounting::new(10, ());
    c.start_send_done(true);
    c.start_send_done(false);
    c.start_send_done(true);
    assert_eq!(c.flushed_count(), 10);
    c.poll_complete_done(false);
    assert_eq!(c.flushed_count(), 10);
    c.poll_complete_done(true);
    assert_eq!(c.flushed_count(), 12);
    c.poll_complete_done(true);
    assert_eq!(c.flushed_count(), 12);
}

#[test]
fn single_server_takes_every_call() {
    let mut lb = SingleServerLoadBalancer::new("server");
    assert_eq!(lb.select_server(), (0, &"server"));
    lb.feed_back(0, CallInfo::new(5, None));
    assert_eq!(lb.select_server(), (0, &"server"));
}
