//! The `Hello` service: greetings over http, carried by the controller.

use bytes::Bytes;
use vstd::prelude::*;

use crate::buffer::bytes_content;
use crate::codec::ProtobufCodec;
use crate::controller::Controller;
use crate::dispatcher::{NamedRegistrant, Registrant};
use crate::examples::messages::{Empty};
use crate::message::RpcRequestMeta;
use crate::service::{bundle_answers, provider_answers, CodecMethodBundle, ProviderSetError, RequestProcessError, Service};
use crate::stub::{sends, RpcError, RpcWrapper, StubFuture};

verus! {

/// The request; the text travels in the controller.
pub type HelloRequest = Empty;

/// The response; the text travels in the controller.
pub type HelloResponse = Empty;

/// What a provider of the `Hello` service implements.
pub trait HelloService {
    /// Greets anyone.
    fn hello_general(&self, msg: (HelloRequest, Controller)) -> Result<(HelloResponse, Controller), ProviderSetError>;

    /// Greets the name in the request body.
    fn hello_to(&self, msg: (HelloRequest, Controller)) -> Result<(HelloResponse, Controller), ProviderSetError>;
}

/// Method `hello_general` of a provider.
#[derive(Clone, Debug)]
pub struct HelloGeneralCall<S>(pub S);

impl<S: HelloService> Service for HelloGeneralCall<S> {
    type Request = (HelloRequest, Controller);
    type Response = (HelloResponse, Controller);
    type Error = ProviderSetError;

    fn call(&self, req: (HelloRequest, Controller)) -> (r: Result<(HelloResponse, Controller), ProviderSetError>)
        ensures
            call_ensures(S::hello_general, (&self.0, req), r),
    {
        self.0.hello_general(req)
    }
}

/// Method `hello_to` of a provider.
#[derive(Clone, Debug)]
pub struct HelloToCall<S>(pub S);

impl<S: HelloService> Service for HelloToCall<S> {
    type Request = (HelloRequest, Controller);
    type Response = (HelloResponse, Controller);
    type Error = ProviderSetError;

    fn call(&self, req: (HelloRequest, Controller)) -> (r: Result<(HelloResponse, Controller), ProviderSetError>)
        ensures
            call_ensures(S::hello_to, (&self.0, req), r),
    {
        self.0.hello_to(req)
    }
}

/// A method of the `Hello` service, on bodies.
#[derive(Debug)]
pub enum HelloMethod<S> {
    /// `hello_general`.
    HelloGeneral(CodecMethodBundle<ProtobufCodec<HelloRequest, HelloResponse>, HelloGeneralCall<S>>),
    /// `hello_to`.
    HelloTo(CodecMethodBundle<ProtobufCodec<HelloRequest, HelloResponse>, HelloToCall<S>>),
}

impl<S: HelloService> Service for HelloMethod<S> {
    type Request = (Bytes, Controller);
    type Response = (Bytes, Controller);
    type Error = RequestProcessError;

    fn call(&self, req: (Bytes, Controller)) -> (r: Result<(Bytes, Controller), RequestProcessError>)
        ensures
            match self {
                HelloMethod::HelloGeneral(b) => bundle_answers(b.codec(), bytes_content(req.0), r)
                    && provider_answers(b.codec(), b.method(), req, r),
                HelloMethod::HelloTo(b) => bundle_answers(b.codec(), bytes_content(req.0), r)
                    && provider_answers(b.codec(), b.method(), req, r),
            },
    {
        match self {
            HelloMethod::HelloGeneral(b) => b.call(req),
            HelloMethod::HelloTo(b) => b.call(req),
        }
    }
}

/// Links the names of the `Hello` methods with a provider's methods.
#[derive(Debug)]
pub struct HelloRegistrant<S> {
    provider: S,
}

impl<S> HelloRegistrant<S> {
    /// A registrant for `provider`.
    pub fn new(provider: S) -> (r: Self)
        ensures
            r.provider() == provider,
    {
        HelloRegistrant { provider }
    }

    /// The provider.
    pub closed spec fn provider(&self) -> S {
        self.provider
    }
}

impl<S: HelloService + Clone> Registrant<HelloMethod<S>> for HelloRegistrant<S> {
    fn methods(&self) -> (r: Vec<(String, HelloMethod<S>)>)
        ensures
            r@.len() == 2,
            r@[0].0@ == "hello_general"@ && r@[0].1 is HelloGeneral,
            r@[0].1 matches HelloMethod::HelloGeneral(b) && cloned::<S>(
                self.provider(),
                b.method().0,
            ),
            r@[1].0@ == "hello_to"@ && r@[1].1 is HelloTo,
            r@[1].1 matches HelloMethod::HelloTo(b) && cloned::<S>(
                self.provider(),
                b.method().0,
            ),
    {
        let mut entries: Vec<(String, HelloMethod<S>)> = Vec::new();
        let method = CodecMethodBundle::new(ProtobufCodec::new(), HelloGeneralCall(self.provider.clone()));
        entries.push(("hello_general".to_owned(), HelloMethod::HelloGeneral(method)));
        let method = CodecMethodBundle::new(ProtobufCodec::new(), HelloToCall(self.provider.clone()));
        entries.push(("hello_to".to_owned(), HelloMethod::HelloTo(method)));
        entries
    }
}

impl<S: HelloService + Clone> NamedRegistrant<HelloMethod<S>> for HelloRegistrant<S> {
    fn name() -> (r: &'static str)
        ensures
            r@ == "Hello"@,
    {
        "Hello"
    }
}

/// Calls the methods of a `Hello` service: makes the request packages and
/// reads the answers.
#[derive(Debug)]
pub struct HelloStub {
    hello_general_wrapper: RpcWrapper<ProtobufCodec<HelloResponse, HelloRequest>>,
    hello_to_wrapper: RpcWrapper<ProtobufCodec<HelloResponse, HelloRequest>>,
}

impl HelloStub {
    /// A stub.
    pub fn new() -> (r: Self) {
        HelloStub {
            hello_general_wrapper: RpcWrapper::new(ProtobufCodec::new()),
            hello_to_wrapper: RpcWrapper::new(ProtobufCodec::new()),
        }
    }


    /// Calls `hello_general`: the request package to send, and what reads the
    /// answer.
    pub fn hello_general(&self, msg: HelloRequest) -> (r: (
        Result<(RpcRequestMeta, Bytes), RpcError>,
        StubFuture<ProtobufCodec<HelloResponse, HelloRequest>>,
    ))
        ensures
            sends::<HelloRequest>(r.0, "Hello"@, "hello_general"@, msg@),
            r.1.start_usec() == 0,
    {
        let sent = self.hello_general_wrapper.call((msg, "Hello".to_owned(), "hello_general".to_owned()));
        (sent, StubFuture::new(ProtobufCodec::new()))
    }

    /// Calls `hello_to`: the request package to send, and what reads the
    /// answer.
    pub fn hello_to(&self, msg: HelloRequest) -> (r: (
        Result<(RpcRequestMeta, Bytes), RpcError>,
        StubFuture<ProtobufCodec<HelloResponse, HelloRequest>>,
    ))
        ensures
            sends::<HelloRequest>(r.0, "Hello"@, "hello_to"@, msg@),
            r.1.start_usec() == 0,
    {
        let sent = self.hello_to_wrapper.call((msg, "Hello".to_owned(), "hello_to".to_owned()));
        (sent, StubFuture::new(ProtobufCodec::new()))
    }
}

} // verus!
