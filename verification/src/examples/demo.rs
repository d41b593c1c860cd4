//! The `Demo` service: a greeting and a primality test.

use bytes::Bytes;
use vstd::prelude::*;

use crate::buffer::bytes_content;
use crate::codec::ProtobufCodec;
use crate::controller::Controller;
use crate::dispatcher::{NamedRegistrant, Registrant};
use crate::examples::messages::{FlagMessage, NumberMessage, TextMessage};
use crate::message::RpcRequestMeta;
use crate::service::{bundle_answers, provider_answers, CodecMethodBundle, ProviderSetError, RequestProcessError, Service};
use crate::stub::{sends, RpcError, RpcWrapper, StubFuture};

verus! {

/// A greeting.
pub type GreetMessage = TextMessage;

/// The number to test.
pub type PrimeRequest = NumberMessage;

/// Whether the number is prime.
pub type PrimeResponse = FlagMessage;

/// What a provider of the `Demo` service implements.
pub trait DemoService {
    /// Answers a greeting.
    fn greet_to(&self, msg: (GreetMessage, Controller)) -> Result<(GreetMessage, Controller), ProviderSetError>;

    /// Tells whether a number is prime.
    fn is_prime(&self, msg: (PrimeRequest, Controller)) -> Result<(PrimeResponse, Controller), ProviderSetError>;
}

/// Method `greet_to` of a provider.
#[derive(Clone, Debug)]
pub struct GreetToCall<S>(pub S);

impl<S: DemoService> Service for GreetToCall<S> {
    type Request = (GreetMessage, Controller);
    type Response = (GreetMessage, Controller);
    type Error = ProviderSetError;

    fn call(&self, req: (GreetMessage, Controller)) -> (r: Result<(GreetMessage, Controller), ProviderSetError>)
        ensures
            call_ensures(S::greet_to, (&self.0, req), r),
    {
        self.0.greet_to(req)
    }
}

/// Method `is_prime` of a provider.
#[derive(Clone, Debug)]
pub struct IsPrimeCall<S>(pub S);

impl<S: DemoService> Service for IsPrimeCall<S> {
    type Request = (PrimeRequest, Controller);
    type Response = (PrimeResponse, Controller);
    type Error = ProviderSetError;

    fn call(&self, req: (PrimeRequest, Controller)) -> (r: Result<(PrimeResponse, Controller), ProviderSetError>)
        ensures
            call_ensures(S::is_prime, (&self.0, req), r),
    {
        self.0.is_prime(req)
    }
}

/// A method of the `Demo` service, on bodies.
#[derive(Debug)]
pub enum DemoMethod<S> {
    /// `greet_to`.
    GreetTo(CodecMethodBundle<ProtobufCodec<GreetMessage, GreetMessage>, GreetToCall<S>>),
    /// `is_prime`.
    IsPrime(CodecMethodBundle<ProtobufCodec<PrimeRequest, PrimeResponse>, IsPrimeCall<S>>),
}

impl<S: DemoService> Service for DemoMethod<S> {
    type Request = (Bytes, Controller);
    type Response = (Bytes, Controller);
    type Error = RequestProcessError;

    fn call(&self, req: (Bytes, Controller)) -> (r: Result<(Bytes, Controller), RequestProcessError>)
        ensures
            match self {
                DemoMethod::GreetTo(b) => bundle_answers(b.codec(), bytes_content(req.0), r)
                    && provider_answers(b.codec(), b.method(), req, r),
                DemoMethod::IsPrime(b) => bundle_answers(b.codec(), bytes_content(req.0), r)
                    && provider_answers(b.codec(), b.method(), req, r),
            },
    {
        match self {
            DemoMethod::GreetTo(b) => b.call(req),
            DemoMethod::IsPrime(b) => b.call(req),
        }
    }
}

/// Links the names of the `Demo` methods with a provider's methods.
#[derive(Debug)]
pub struct DemoRegistrant<S> {
    provider: S,
}

impl<S> DemoRegistrant<S> {
    /// A registrant for `provider`.
    pub fn new(provider: S) -> (r: Self)
        ensures
            r.provider() == provider,
    {
        DemoRegistrant { provider }
    }

    /// The provider.
    pub closed spec fn provider(&self) -> S {
        self.provider
    }
}

impl<S: DemoService + Clone> Registrant<DemoMethod<S>> for DemoRegistrant<S> {
    fn methods(&self) -> (r: Vec<(String, DemoMethod<S>)>)
        ensures
            r@.len() == 2,
            r@[0].0@ == "greet_to"@ && r@[0].1 is GreetTo,
            r@[0].1 matches DemoMethod::GreetTo(b) && cloned::<S>(
                self.provider(),
                b.method().0,
            ),
            r@[1].0@ == "is_prime"@ && r@[1].1 is IsPrime,
            r@[1].1 matches DemoMethod::IsPrime(b) && cloned::<S>(
                self.provider(),
                b.method().0,
            ),
    {
        let mut entries: Vec<(String, DemoMethod<S>)> = Vec::new();
        let method = CodecMethodBundle::new(ProtobufCodec::new(), GreetToCall(self.provider.clone()));
        entries.push(("greet_to".to_owned(), DemoMethod::GreetTo(method)));
        let method = CodecMethodBundle::new(ProtobufCodec::new(), IsPrimeCall(self.provider.clone()));
        entries.push(("is_prime".to_owned(), DemoMethod::IsPrime(method)));
        entries
    }
}

impl<S: DemoService + Clone> NamedRegistrant<DemoMethod<S>> for DemoRegistrant<S> {
    fn name() -> (r: &'static str)
        ensures
            r@ == "Demo"@,
    {
        "Demo"
    }
}

/// Calls the methods of a `Demo` service: makes the request packages and
/// reads the answers.
#[derive(Debug)]
pub struct DemoStub {
    greet_to_wrapper: RpcWrapper<ProtobufCodec<GreetMessage, GreetMessage>>,
    is_prime_wrapper: RpcWrapper<ProtobufCodec<PrimeResponse, PrimeRequest>>,
}

impl DemoStub {
    /// A stub.
    pub fn new() -> (r: Self) {
        DemoStub {
            greet_to_wrapper: RpcWrapper::new(ProtobufCodec::new()),
            is_prime_wrapper: RpcWrapper::new(ProtobufCodec::new()),
        }
    }


    /// Calls `greet_to`: the request package to send, and what reads the
    /// answer.
    pub fn greet_to(&self, msg: GreetMessage) -> (r: (
        Result<(RpcRequestMeta, Bytes), RpcError>,
        StubFuture<ProtobufCodec<GreetMessage, GreetMessage>>,
    ))
        ensures
            sends::<GreetMessage>(r.0, "Demo"@, "greet_to"@, msg@),
            r.1.start_usec() == 0,
    {
        let sent = self.greet_to_wrapper.call((msg, "Demo".to_owned(), "greet_to".to_owned()));
        (sent, StubFuture::new(ProtobufCodec::new()))
    }

    /// Calls `is_prime`: the request package to send, and what reads the
    /// answer.
    pub fn is_prime(&self, msg: PrimeRequest) -> (r: (
        Result<(RpcRequestMeta, Bytes), RpcError>,
        StubFuture<ProtobufCodec<PrimeResponse, PrimeRequest>>,
    ))
        ensures
            sends::<PrimeRequest>(r.0, "Demo"@, "is_prime"@, msg@),
            r.1.start_usec() == 0,
    {
        let sent = self.is_prime_wrapper.call((msg, "Demo".to_owned(), "is_prime".to_owned()));
        (sent, StubFuture::new(ProtobufCodec::new()))
    }
}

} // verus!
