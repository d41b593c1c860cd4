//! The `Echo` service: sends a text back, as it is or reversed.

use bytes::Bytes;
use vstd::prelude::*;

use crate::buffer::bytes_content;
use crate::codec::ProtobufCodec;
use crate::controller::Controller;
use crate::dispatcher::{NamedRegistrant, Registrant};
use crate::examples::messages::{TextMessage};
use crate::message::RpcRequestMeta;
use crate::service::{bundle_answers, provider_answers, CodecMethodBundle, ProviderSetError, RequestProcessError, Service};
use crate::stub::{sends, RpcError, RpcWrapper, StubFuture};

verus! {

/// The text to send back.
pub type EchoRequest = TextMessage;

/// The text sent back.
pub type EchoResponse = TextMessage;

/// What a provider of the `Echo` service implements.
pub trait EchoService {
    /// Sends the text back.
    fn echo(&self, msg: (EchoRequest, Controller)) -> Result<(EchoResponse, Controller), ProviderSetError>;

    /// Sends the text back reversed.
    fn rev_echo(&self, msg: (EchoRequest, Controller)) -> Result<(EchoResponse, Controller), ProviderSetError>;
}

/// Method `echo` of a provider.
#[derive(Clone, Debug)]
pub struct EchoCall<S>(pub S);

impl<S: EchoService> Service for EchoCall<S> {
    type Request = (EchoRequest, Controller);
    type Response = (EchoResponse, Controller);
    type Error = ProviderSetError;

    fn call(&self, req: (EchoRequest, Controller)) -> (r: Result<(EchoResponse, Controller), ProviderSetError>)
        ensures
            call_ensures(S::echo, (&self.0, req), r),
    {
        self.0.echo(req)
    }
}

/// Method `rev_echo` of a provider.
#[derive(Clone, Debug)]
pub struct RevEchoCall<S>(pub S);

impl<S: EchoService> Service for RevEchoCall<S> {
    type Request = (EchoRequest, Controller);
    type Response = (EchoResponse, Controller);
    type Error = ProviderSetError;

    fn call(&self, req: (EchoRequest, Controller)) -> (r: Result<(EchoResponse, Controller), ProviderSetError>)
        ensures
            call_ensures(S::rev_echo, (&self.0, req), r),
    {
        self.0.rev_echo(req)
    }
}

/// A method of the `Echo` service, on bodies.
#[derive(Debug)]
pub enum EchoMethod<S> {
    /// `echo`.
    Echo(CodecMethodBundle<ProtobufCodec<EchoRequest, EchoResponse>, EchoCall<S>>),
    /// `rev_echo`.
    RevEcho(CodecMethodBundle<ProtobufCodec<EchoRequest, EchoResponse>, RevEchoCall<S>>),
}

impl<S: EchoService> Service for EchoMethod<S> {
    type Request = (Bytes, Controller);
    type Response = (Bytes, Controller);
    type Error = RequestProcessError;

    fn call(&self, req: (Bytes, Controller)) -> (r: Result<(Bytes, Controller), RequestProcessError>)
        ensures
            match self {
                EchoMethod::Echo(b) => bundle_answers(b.codec(), bytes_content(req.0), r)
                    && provider_answers(b.codec(), b.method(), req, r),
                EchoMethod::RevEcho(b) => bundle_answers(b.codec(), bytes_content(req.0), r)
                    && provider_answers(b.codec(), b.method(), req, r),
            },
    {
        match self {
            EchoMethod::Echo(b) => b.call(req),
            EchoMethod::RevEcho(b) => b.call(req),
        }
    }
}

/// Links the names of the `Echo` methods with a provider's methods.
#[derive(Debug)]
pub struct EchoRegistrant<S> {
    provider: S,
}

impl<S> EchoRegistrant<S> {
    /// A registrant for `provider`.
    pub fn new(provider: S) -> (r: Self)
        ensures
            r.provider() == provider,
    {
        EchoRegistrant { provider }
    }

    /// The provider.
    pub closed spec fn provider(&self) -> S {
        self.provider
    }
}

impl<S: EchoService + Clone> Registrant<EchoMethod<S>> for EchoRegistrant<S> {
    fn methods(&self) -> (r: Vec<(String, EchoMethod<S>)>)
        ensures
            r@.len() == 2,
            r@[0].0@ == "echo"@ && r@[0].1 is Echo,
            r@[0].1 matches EchoMethod::Echo(b) && cloned::<S>(
                self.provider(),
                b.method().0,
            ),
            r@[1].0@ == "rev_echo"@ && r@[1].1 is RevEcho,
            r@[1].1 matches EchoMethod::RevEcho(b) && cloned::<S>(
                self.provider(),
                b.method().0,
            ),
    {
        let mut entries: Vec<(String, EchoMethod<S>)> = Vec::new();
        let method = CodecMethodBundle::new(ProtobufCodec::new(), EchoCall(self.provider.clone()));
        entries.push(("echo".to_owned(), EchoMethod::Echo(method)));
        let method = CodecMethodBundle::new(ProtobufCodec::new(), RevEchoCall(self.provider.clone()));
        entries.push(("rev_echo".to_owned(), EchoMethod::RevEcho(method)));
        entries
    }
}

impl<S: EchoService + Clone> NamedRegistrant<EchoMethod<S>> for EchoRegistrant<S> {
    fn name() -> (r: &'static str)
        ensures
            r@ == "Echo"@,
    {
        "Echo"
    }
}

/// Calls the methods of a `Echo` service: makes the request packages and
/// reads the answers.
#[derive(Debug)]
pub struct EchoStub {
    echo_wrapper: RpcWrapper<ProtobufCodec<EchoResponse, EchoRequest>>,
    rev_echo_wrapper: RpcWrapper<ProtobufCodec<EchoResponse, EchoRequest>>,
}

impl EchoStub {
    /// A stub.
    pub fn new() -> (r: Self) {
        EchoStub {
            echo_wrapper: RpcWrapper::new(ProtobufCodec::new()),
            rev_echo_wrapper: RpcWrapper::new(ProtobufCodec::new()),
        }
    }


    /// Calls `echo`: the request package to send, and what reads the
    /// answer.
    pub fn echo(&self, msg: EchoRequest) -> (r: (
        Result<(RpcRequestMeta, Bytes), RpcError>,
        StubFuture<ProtobufCodec<EchoResponse, EchoRequest>>,
    ))
        ensures
            sends::<EchoRequest>(r.0, "Echo"@, "echo"@, msg@),
            r.1.start_usec() == 0,
    {
        let sent = self.echo_wrapper.call((msg, "Echo".to_owned(), "echo".to_owned()));
        (sent, StubFuture::new(ProtobufCodec::new()))
    }

    /// Calls `rev_echo`: the request package to send, and what reads the
    /// answer.
    pub fn rev_echo(&self, msg: EchoRequest) -> (r: (
        Result<(RpcRequestMeta, Bytes), RpcError>,
        StubFuture<ProtobufCodec<EchoResponse, EchoRequest>>,
    ))
        ensures
            sends::<EchoRequest>(r.0, "Echo"@, "rev_echo"@, msg@),
            r.1.start_usec() == 0,
    {
        let sent = self.rev_echo_wrapper.call((msg, "Echo".to_owned(), "rev_echo".to_owned()));
        (sent, StubFuture::new(ProtobufCodec::new()))
    }
}

} // verus!
