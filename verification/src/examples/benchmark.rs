//! The benchmark services: `Metric` reports the throughput, `Pressure`
//! loads the server.

use bytes::Bytes;
use vstd::prelude::*;

use crate::buffer::bytes_content;
use crate::codec::ProtobufCodec;
use crate::controller::Controller;
use crate::dispatcher::{NamedRegistrant, Registrant};
use crate::examples::messages::{Empty, TextMessage};
use crate::message::RpcRequestMeta;
use crate::service::{bundle_answers, provider_answers, CodecMethodBundle, ProviderSetError, RequestProcessError, Service};
use crate::stub::{sends, RpcError, RpcWrapper, StubFuture};

verus! {

/// A text payload.
pub type StringMessage = TextMessage;

/// The payload of a load request.
pub type PressureRequest = TextMessage;

/// What a provider of the `Metric` service implements.
pub trait MetricService {
    /// Reports the throughput, in the controller.
    fn metric(&self, msg: (Empty, Controller)) -> Result<(Empty, Controller), ProviderSetError>;
}

/// Method `metric` of a provider.
#[derive(Clone, Debug)]
pub struct MetricCall<S>(pub S);

impl<S: MetricService> Service for MetricCall<S> {
    type Request = (Empty, Controller);
    type Response = (Empty, Controller);
    type Error = ProviderSetError;

    fn call(&self, req: (Empty, Controller)) -> (r: Result<(Empty, Controller), ProviderSetError>)
        ensures
            call_ensures(S::metric, (&self.0, req), r),
    {
        self.0.metric(req)
    }
}

/// A method of the `Metric` service, on bodies.
#[derive(Debug)]
pub enum MetricMethod<S> {
    /// `metric`.
    Metric(CodecMethodBundle<ProtobufCodec<Empty, Empty>, MetricCall<S>>),
}

impl<S: MetricService> Service for MetricMethod<S> {
    type Request = (Bytes, Controller);
    type Response = (Bytes, Controller);
    type Error = RequestProcessError;

    fn call(&self, req: (Bytes, Controller)) -> (r: Result<(Bytes, Controller), RequestProcessError>)
        ensures
            match self {
                MetricMethod::Metric(b) => bundle_answers(b.codec(), bytes_content(req.0), r)
                    && provider_answers(b.codec(), b.method(), req, r),
            },
    {
        match self {
            MetricMethod::Metric(b) => b.call(req),
        }
    }
}

/// Links the names of the `Metric` methods with a provider's methods.
#[derive(Debug)]
pub struct MetricRegistrant<S> {
    provider: S,
}

impl<S> MetricRegistrant<S> {
    /// A registrant for `provider`.
    pub fn new(provider: S) -> (r: Self)
        ensures
            r.provider() == provider,
    {
        MetricRegistrant { provider }
    }

    /// The provider.
    pub closed spec fn provider(&self) -> S {
        self.provider
    }
}

impl<S: MetricService + Clone> Registrant<MetricMethod<S>> for MetricRegistrant<S> {
    fn methods(&self) -> (r: Vec<(String, MetricMethod<S>)>)
        ensures
            r@.len() == 1,
            r@[0].0@ == "metric"@ && r@[0].1 is Metric,
            r@[0].1 matches MetricMethod::Metric(b) && cloned::<S>(
                self.provider(),
                b.method().0,
            ),
    {
        let mut entries: Vec<(String, MetricMethod<S>)> = Vec::new();
        let method = CodecMethodBundle::new(ProtobufCodec::new(), MetricCall(self.provider.clone()));
        entries.push(("metric".to_owned(), MetricMethod::Metric(method)));
        entries
    }
}

impl<S: MetricService + Clone> NamedRegistrant<MetricMethod<S>> for MetricRegistrant<S> {
    fn name() -> (r: &'static str)
        ensures
            r@ == "Metric"@,
    {
        "Metric"
    }
}

/// Calls the methods of a `Metric` service: makes the request packages and
/// reads the answers.
#[derive(Debug)]
pub struct MetricStub {
    metric_wrapper: RpcWrapper<ProtobufCodec<Empty, Empty>>,
}

impl MetricStub {
    /// A stub.
    pub fn new() -> (r: Self) {
        MetricStub {
            metric_wrapper: RpcWrapper::new(ProtobufCodec::new()),
        }
    }


    /// Calls `metric`: the request package to send, and what reads the
    /// answer.
    pub fn metric(&self, msg: Empty) -> (r: (
        Result<(RpcRequestMeta, Bytes), RpcError>,
        StubFuture<ProtobufCodec<Empty, Empty>>,
    ))
        ensures
            sends::<Empty>(r.0, "Metric"@, "metric"@, msg@),
            r.1.start_usec() == 0,
    {
        let sent = self.metric_wrapper.call((msg, "Metric".to_owned(), "metric".to_owned()));
        (sent, StubFuture::new(ProtobufCodec::new()))
    }
}

/// What a provider of the `Pressure` service implements.
pub trait PressureService {
    /// Sends the payload back.
    fn echo(&self, msg: (StringMessage, Controller)) -> Result<(StringMessage, Controller), ProviderSetError>;

    /// Processes a load request.
    fn process(&self, msg: (PressureRequest, Controller)) -> Result<(Empty, Controller), ProviderSetError>;
}

/// Method `echo` of a provider.
#[derive(Clone, Debug)]
pub struct EchoCall<S>(pub S);

impl<S: PressureService> Service for EchoCall<S> {
    type Request = (StringMessage, Controller);
    type Response = (StringMessage, Controller);
    type Error = ProviderSetError;

    fn call(&self, req: (StringMessage, Controller)) -> (r: Result<(StringMessage, Controller), ProviderSetError>)
        ensures
            call_ensures(S::echo, (&self.0, req), r),
    {
        self.0.echo(req)
    }
}

/// Method `process` of a provider.
#[derive(Clone, Debug)]
pub struct ProcessCall<S>(pub S);

impl<S: PressureService> Service for ProcessCall<S> {
    type Request = (PressureRequest, Controller);
    type Response = (Empty, Controller);
    type Error = ProviderSetError;

    fn call(&self, req: (PressureRequest, Controller)) -> (r: Result<(Empty, Controller), ProviderSetError>)
        ensures
            call_ensures(S::process, (&self.0, req), r),
    {
        self.0.process(req)
    }
}

/// A method of the `Pressure` service, on bodies.
#[derive(Debug)]
pub enum PressureMethod<S> {
    /// `echo`.
    Echo(CodecMethodBundle<ProtobufCodec<StringMessage, StringMessage>, EchoCall<S>>),
    /// `process`.
    Process(CodecMethodBundle<ProtobufCodec<PressureRequest, Empty>, ProcessCall<S>>),
}

impl<S: PressureService> Service for PressureMethod<S> {
    type Request = (Bytes, Controller);
    type Response = (Bytes, Controller);
    type Error = RequestProcessError;

    fn call(&self, req: (Bytes, Controller)) -> (r: Result<(Bytes, Controller), RequestProcessError>)
        ensures
            match self {
                PressureMethod::Echo(b) => bundle_answers(b.codec(), bytes_content(req.0), r)
                    && provider_answers(b.codec(), b.method(), req, r),
                PressureMethod::Process(b) => bundle_answers(b.codec(), bytes_content(req.0), r)
                    && provider_answers(b.codec(), b.method(), req, r),
            },
    {
        match self {
            PressureMethod::Echo(b) => b.call(req),
            PressureMethod::Process(b) => b.call(req),
        }
    }
}

/// Links the names of the `Pressure` methods with a provider's methods.
#[derive(Debug)]
pub struct PressureRegistrant<S> {
    provider: S,
}

impl<S> PressureRegistrant<S> {
    /// A registrant for `provider`.
    pub fn new(provider: S) -> (r: Self)
        ensures
            r.provider() == provider,
    {
        PressureRegistrant { provider }
    }

    /// The provider.
    pub closed spec fn provider(&self) -> S {
        self.provider
    }
}

impl<S: PressureService + Clone> Registrant<PressureMethod<S>> for PressureRegistrant<S> {
    fn methods(&self) -> (r: Vec<(String, PressureMethod<S>)>)
        ensures
            r@.len() == 2,
            r@[0].0@ == "echo"@ && r@[0].1 is Echo,
            r@[0].1 matches PressureMethod::Echo(b) && cloned::<S>(
                self.provider(),
                b.method().0,
            ),
            r@[1].0@ == "process"@ && r@[1].1 is Process,
            r@[1].1 matches PressureMethod::Process(b) && cloned::<S>(
                self.provider(),
                b.method().0,
            ),
    {
        let mut entries: Vec<(String, PressureMethod<S>)> = Vec::new();
        let method = CodecMethodBundle::new(ProtobufCodec::new(), EchoCall(self.provider.clone()));
        entries.push(("echo".to_owned(), PressureMethod::Echo(method)));
        let method = CodecMethodBundle::new(ProtobufCodec::new(), ProcessCall(self.provider.clone()));
        entries.push(("process".to_owned(), PressureMethod::Process(method)));
        entries
    }
}

impl<S: PressureService + Clone> NamedRegistrant<PressureMethod<S>> for PressureRegistrant<S> {
    fn name() -> (r: &'static str)
        ensures
            r@ == "Pressure"@,
    {
        "Pressure"
    }
}

/// Calls the methods of a `Pressure` service: makes the request packages and
/// reads the answers.
#[derive(Debug)]
pub struct PressureStub {
    echo_wrapper: RpcWrapper<ProtobufCodec<StringMessage, StringMessage>>,
    process_wrapper: RpcWrapper<ProtobufCodec<Empty, PressureRequest>>,
}

impl PressureStub {
    /// A stub.
    pub fn new() -> (r: Self) {
        PressureStub {
            echo_wrapper: RpcWrapper::new(ProtobufCodec::new()),
            process_wrapper: RpcWrapper::new(ProtobufCodec::new()),
        }
    }


    /// Calls `echo`: the request package to send, and what reads the
    /// answer.
    pub fn echo(&self, msg: StringMessage) -> (r: (
        Result<(RpcRequestMeta, Bytes), RpcError>,
        StubFuture<ProtobufCodec<StringMessage, StringMessage>>,
    ))
        ensures
            sends::<StringMessage>(r.0, "Pressure"@, "echo"@, msg@),
            r.1.start_usec() == 0,
    {
        let sent = self.echo_wrapper.call((msg, "Pressure".to_owned(), "echo".to_owned()));
        (sent, StubFuture::new(ProtobufCodec::new()))
    }

    /// Calls `process`: the request package to send, and what reads the
    /// answer.
    pub fn process(&self, msg: PressureRequest) -> (r: (
        Result<(RpcRequestMeta, Bytes), RpcError>,
        StubFuture<ProtobufCodec<Empty, PressureRequest>>,
    ))
        ensures
            sends::<PressureRequest>(r.0, "Pressure"@, "process"@, msg@),
            r.1.start_usec() == 0,
    {
        let sent = self.process_wrapper.call((msg, "Pressure".to_owned(), "process".to_owned()));
        (sent, StubFuture::new(ProtobufCodec::new()))
    }
}

} // verus!
