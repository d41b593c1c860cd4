//! Services: the errors a request can end in, the bundles of a codec and a
//! provider's method, and the server side dispatch of a request package.

use bytes::Bytes;
use vstd::prelude::*;

use crate::buffer::{bytes_content, bytes_empty};
use crate::codec::{MethodCodec, ProtobufError};
use crate::controller::{default_controller, Controller, ControllerModel};
use crate::dispatcher::{
    dispatch_error_text, registry_lookup, DispatchError, DispatchErrorModel, LookupModel, ServiceRegistry,
};
use crate::message::{ResponseMetaModel, RpcRequestMeta, RpcResponseMeta};
use crate::stub::{code_kind, kind_code, lemma_kind_code_round_trip, RpcErrorKind};
use crate::text::{push_str, string_from_chars};

verus! {

/// A request's processing: takes a request and answers it.
///
/// Service providers implement it, through the code generator, for each
/// method of a service.
pub trait Service {
    /// What the method takes.
    type Request;
    /// What the method answers.
    type Response;
    /// How the method fails.
    type Error;

    /// Processes a request.
    fn call(&self, req: Self::Request) -> Result<Self::Response, Self::Error>;
}

/// Error set by a service provider: the request broke some constraint.
#[derive(Clone, Copy, Debug, PartialEq, Eq)]
pub enum ProviderSetError {
    /// The request message is invalid (a business constraint is violated).
    InvalidRequest,
    /// The request message is legal, but the server failed to process it.
    InternalError,
}

/// The message of a provider error.
pub open spec fn provider_error_text(e: ProviderSetError) -> Seq<char> {
    match e {
        ProviderSetError::InvalidRequest => "the request message is invalid"@,
        ProviderSetError::InternalError => "internal server error"@,
    }
}

impl ProviderSetError {
    /// A short description.
    pub fn description(&self) -> (r: &'static str)
        ensures
            r@ == provider_error_text(*self),
    {
        match self {
            ProviderSetError::InvalidRequest => "the request message is invalid",
            ProviderSetError::InternalError => "internal server error",
        }
    }

    /// The message.
    pub fn to_string(&self) -> (r: String)
        ensures
            r@ == provider_error_text(*self),
    {
        let mut out: Vec<char> = Vec::new();
        push_str(&mut out, self.description());
        assert(out@ =~= provider_error_text(*self));
        string_from_chars(out.as_slice())
    }
}

/// Error raised while processing a request: the method codec failed, or
/// the provider marked the call as failed.
#[derive(Clone, Debug, PartialEq, Eq)]
pub enum RequestProcessError {
    /// The service provider set the call to failure.
    ProviderSetError(ProviderSetError),
    /// The requested method cannot be found.
    DispatchError(DispatchError),
    /// The request failed to decode.
    RequestDecodeError,
    /// The response failed to encode.
    ResponseEncodeError,
}

/// Abstract value of a [`RequestProcessError`].
pub enum RequestProcessErrorModel {
    ProviderSetError(ProviderSetError),
    DispatchError(DispatchErrorModel),
    RequestDecodeError,
    ResponseEncodeError,
}

impl View for RequestProcessError {
    type V = RequestProcessErrorModel;

    open spec fn view(&self) -> RequestProcessErrorModel {
        match self {
            RequestProcessError::ProviderSetError(e) => RequestProcessErrorModel::ProviderSetError(*e),
            RequestProcessError::DispatchError(e) => RequestProcessErrorModel::DispatchError(e@),
            RequestProcessError::RequestDecodeError => RequestProcessErrorModel::RequestDecodeError,
            RequestProcessError::ResponseEncodeError => RequestProcessErrorModel::ResponseEncodeError,
        }
    }
}

/// The message of a processing error.
pub open spec fn process_error_text(e: RequestProcessErrorModel) -> Seq<char> {
    match e {
        RequestProcessErrorModel::ProviderSetError(p) => "provider returned an error "@ + provider_error_text(p),
        RequestProcessErrorModel::DispatchError(d) => "dispatch error: "@ + dispatch_error_text(d),
        RequestProcessErrorModel::RequestDecodeError => "failed to decode request"@,
        RequestProcessErrorModel::ResponseEncodeError => "failed to encode response"@,
    }
}

/// The kind of error a client reads from a processing error: a request
/// that a provider refused or that failed to decode is invalid, a missing
/// service or method is reported as such, and any other failure is the
/// server's own.
pub open spec fn process_error_kind(e: RequestProcessErrorModel) -> RpcErrorKind {
    match e {
        RequestProcessErrorModel::ProviderSetError(ProviderSetError::InvalidRequest) => RpcErrorKind::InvalidRequest,
        RequestProcessErrorModel::ProviderSetError(ProviderSetError::InternalError) => RpcErrorKind::InteralServerError,
        RequestProcessErrorModel::DispatchError(DispatchErrorModel::ServiceNotFound(_)) => RpcErrorKind::ServiceNotFound,
        RequestProcessErrorModel::DispatchError(DispatchErrorModel::MethodNotFound(..)) => RpcErrorKind::MethodNotFound,
        RequestProcessErrorModel::RequestDecodeError => RpcErrorKind::InvalidRequest,
        RequestProcessErrorModel::ResponseEncodeError => RpcErrorKind::InteralServerError,
    }
}

impl RequestProcessError {
    /// A short description of the kind of error.
    pub fn description(&self) -> (r: &'static str)
        ensures
            r@ == match self@ {
                RequestProcessErrorModel::ProviderSetError(_) => "provider returned an error"@,
                RequestProcessErrorModel::DispatchError(_) => "dispatch error"@,
                RequestProcessErrorModel::RequestDecodeError => "failed to decode request"@,
                RequestProcessErrorModel::ResponseEncodeError => "failed to encode response"@,
            },
    {
        match self {
            RequestProcessError::ProviderSetError(_) => "provider returned an error",
            RequestProcessError::DispatchError(_) => "dispatch error",
            RequestProcessError::RequestDecodeError => "failed to decode request",
            RequestProcessError::ResponseEncodeError => "failed to encode response",
        }
    }

    /// The message, with that of the underlying error.
    pub fn to_string(&self) -> (r: String)
        ensures
            r@ == process_error_text(self@),
    {
        let mut out: Vec<char> = Vec::new();
        match self {
            RequestProcessError::ProviderSetError(e) => {
                push_str(&mut out, "provider returned an error ");
                push_str(&mut out, e.description());
            },
            RequestProcessError::DispatchError(e) => {
                push_str(&mut out, "dispatch error: ");
                let t = e.to_string();
                push_str(&mut out, t.as_str());
            },
            RequestProcessError::RequestDecodeError => {
                push_str(&mut out, "failed to decode request");
            },
            RequestProcessError::ResponseEncodeError => {
                push_str(&mut out, "failed to encode response");
            },
        }
        assert(out@ =~= process_error_text(self@));
        string_from_chars(out.as_slice())
    }

    /// The error code the answer to a failed request carries: that of the
    /// kind of error the client reads from it.
    pub fn error_code(&self) -> (r: i32)
        ensures
            r == kind_code(process_error_kind(self@)),
    {
        match self {
            RequestProcessError::ProviderSetError(ProviderSetError::InvalidRequest) => 1,
            RequestProcessError::ProviderSetError(ProviderSetError::InternalError) => 2,
            RequestProcessError::DispatchError(DispatchError::ServiceNotFound(_)) => 4,
            RequestProcessError::DispatchError(DispatchError::MethodNotFound(..)) => 5,
            RequestProcessError::RequestDecodeError => 1,
            RequestProcessError::ResponseEncodeError => 2,
        }
    }

    /// The provider error as a processing error.
    pub fn from_provider_error(e: ProviderSetError) -> (r: Self)
        ensures
            r@ == RequestProcessErrorModel::ProviderSetError(e),
    {
        RequestProcessError::ProviderSetError(e)
    }

    /// The dispatch error as a processing error.
    pub fn from_dispatch_error(e: DispatchError) -> (r: Self)
        ensures
            r@ == RequestProcessErrorModel::DispatchError(e@),
    {
        RequestProcessError::DispatchError(e)
    }
}

/// Error of a method in an encapsulated service.
#[derive(Clone, Copy, Debug, PartialEq, Eq)]
pub enum MethodError {
    /// Another error.
    UnknownError,
    /// A message failed to decode or encode.
    CodecError,
}

impl MethodError {
    /// A short description.
    pub fn description(&self) -> (r: &'static str)
        ensures
            r@ == match *self {
                MethodError::UnknownError => "unknown error"@,
                MethodError::CodecError => "codec error"@,
            },
    {
        match self {
            MethodError::UnknownError => "unknown error",
            MethodError::CodecError => "codec error",
        }
    }

    /// The message.
    pub fn to_string(&self) -> (r: String)
        ensures
            r@ == match *self {
                MethodError::UnknownError => "unknown error produced by server"@,
                MethodError::CodecError => "failed to decode message"@,
            },
    {
        let mut out: Vec<char> = Vec::new();
        match self {
            MethodError::UnknownError => push_str(&mut out, "unknown error produced by server"),
            MethodError::CodecError => push_str(&mut out, "failed to decode message"),
        }
        string_from_chars(out.as_slice())
    }

    /// A codec failure as a method error.
    pub fn from_protobuf_error(_e: ProtobufError) -> (r: Self)
        ensures
            r == MethodError::CodecError,
    {
        MethodError::CodecError
    }
}

/// `r` is what a bundle of `codec` answers once its method answered
/// `outcome`: the provider's error, the encoded response with the method's
/// controller, or a response encode error.
pub open spec fn responds<C: MethodCodec>(
    codec: C,
    outcome: Result<(C::Response, Controller), ProviderSetError>,
    r: Result<(Bytes, Controller), RequestProcessError>,
) -> bool {
    match outcome {
        Err(e) => r matches Err(x) && x@ == RequestProcessErrorModel::ProviderSetError(e),
        Ok((m, c)) => if codec.encodable(m) {
            r matches Ok((b, c2)) && codec.encodes_to(m, bytes_content(b)) && c2 == c
        } else {
            r matches Err(x) && x@ == RequestProcessErrorModel::ResponseEncodeError
        },
    }
}

/// `r` answers a request `req` whose body decodes: for some message that the
/// body decodes to, `method` answered some outcome when handed that message
/// and the request's controller, and `r` is what that outcome gives.
pub open spec fn provider_answers<C: MethodCodec, S: Service<
    Request = (C::Request, Controller),
    Response = (C::Response, Controller),
    Error = ProviderSetError,
>>(
    codec: C,
    method: S,
    req: (Bytes, Controller),
    r: Result<(Bytes, Controller), RequestProcessError>,
) -> bool {
    codec.decodes(bytes_content(req.0)) ==> exists|m: C::Request, o: Result<(C::Response, Controller), ProviderSetError>|
        #[trigger] codec.decodes_to(bytes_content(req.0), m) && #[trigger] call_ensures(S::call, (&method, (m, req.1)), o)
            && responds(codec, o, r)
}

/// `r` is what an encapsulated method of `codec` answers once its method
/// answered `outcome`: any error of the method is an unknown error; a
/// response is encoded with the method's controller, or fails as a codec
/// error when it cannot be encoded.
pub open spec fn method_responds<C: MethodCodec>(
    codec: C,
    outcome: Result<(C::Response, Controller), MethodError>,
    r: Result<(Bytes, Controller), MethodError>,
) -> bool {
    match outcome {
        Err(_) => r == Err::<(Bytes, Controller), MethodError>(MethodError::UnknownError),
        Ok((m, c)) => if codec.encodable(m) {
            r matches Ok((b, c2)) && codec.encodes_to(m, bytes_content(b)) && c2 == c
        } else {
            r == Err::<(Bytes, Controller), MethodError>(MethodError::CodecError)
        },
    }
}

/// A codec and a provider's method: decodes the request, calls the method,
/// encodes the response, failing with a [`MethodError`].
#[derive(Debug)]
pub struct EncapsulatedMethod<C, S> {
    codec: C,
    method: S,
}

impl<C, S> EncapsulatedMethod<C, S> {
    /// A new bundle from a codec and a method.
    pub fn new(codec: C, method: S) -> (r: Self)
        ensures
            r.codec() == codec,
            r.method() == method,
    {
        EncapsulatedMethod { codec, method }
    }

    /// The codec.
    pub closed spec fn codec(&self) -> C {
        self.codec
    }

    /// The method.
    pub closed spec fn method(&self) -> S {
        self.method
    }
}

impl<C: MethodCodec, S: Service<
    Request = (C::Request, Controller),
    Response = (C::Response, Controller),
    Error = MethodError,
>> EncapsulatedMethod<C, S> {
    /// What a call answers once the method answered `outcome`.
    pub fn respond(&self, outcome: Result<(C::Response, Controller), MethodError>) -> (r: Result<
        (Bytes, Controller),
        MethodError,
    >)
        ensures
            method_responds(self.codec(), outcome, r),
    {
        match outcome {
            Err(_) => Err(MethodError::UnknownError),
            Ok((m, c)) => match self.codec.encode(m) {
                Ok(b) => Ok((b, c)),
                Err(_) => Err(MethodError::CodecError),
            },
        }
    }

    /// Decodes the body, calls the method and encodes its answer.
    pub fn call(&self, req: (Bytes, Controller)) -> (r: Result<(Bytes, Controller), MethodError>)
        ensures
            !self.codec().decodes(bytes_content(req.0)) ==> r == Err::<(Bytes, Controller), MethodError>(
                MethodError::CodecError,
            ),
            r matches Ok((b, _)) ==> exists|m: C::Response| self.codec().encodes_to(m, bytes_content(b)),
            self.codec().decodes(bytes_content(req.0)) ==> exists|
                m: C::Request,
                o: Result<(C::Response, Controller), MethodError>,
            |
                #[trigger] self.codec().decodes_to(bytes_content(req.0), m) && #[trigger] call_ensures(
                    S::call,
                    (&self.method(), (m, req.1)),
                    o,
                ) && method_responds(self.codec(), o, r),
    {
        let (body, controller) = req;
        match self.codec.decode(body) {
            Err(e) => Err(MethodError::from_protobuf_error(e)),
            Ok(m) => {
                let ghost gm = m;
                let outcome = self.method.call((m, controller));
                let ghost o = outcome;
                let r = self.respond(outcome);
                assert(self.codec().decodes_to(bytes_content(req.0), gm) && call_ensures(
                    S::call,
                    (&self.method(), (gm, req.1)),
                    o,
                ) && method_responds(self.codec(), o, r));
                r
            },
        }
    }
}

/// `r` is an answer that a bundle of `codec` can give to a request whose
/// body is `body`: a body that does not decode fails with a decode error;
/// otherwise the answer is the encoding of an encodable response, a
/// provider's error, or a response encode error (of a response that cannot
/// be encoded).
pub open spec fn bundle_answers<C: MethodCodec>(
    codec: C,
    body: Seq<u8>,
    r: Result<(Bytes, Controller), RequestProcessError>,
) -> bool {
    if !codec.decodes(body) {
        r matches Err(x) && x@ == RequestProcessErrorModel::RequestDecodeError
    } else {
        ||| (r matches Ok((b, _)) && exists|m: C::Response| #[trigger] codec.encodable(m)
            && codec.encodes_to(m, bytes_content(b)))
        ||| (r matches Err(x) && x@ is ProviderSetError)
        ||| (r matches Err(x) && x@ == RequestProcessErrorModel::ResponseEncodeError && exists|m: C::Response|
            !#[trigger] codec.encodable(m))
    }
}

/// A codec and a provider's method: decodes the request, calls the method,
/// encodes the response, failing with a [`RequestProcessError`].
#[derive(Debug)]
pub struct CodecMethodBundle<C, S> {
    codec: C,
    method: S,
}

impl<C, S> CodecMethodBundle<C, S> {
    /// A new bundle from a codec and a method.
    pub fn new(codec: C, method: S) -> (r: Self)
        ensures
            r.codec() == codec,
            r.method() == method,
    {
        CodecMethodBundle { codec, method }
    }

    /// The codec.
    pub closed spec fn codec(&self) -> C {
        self.codec
    }

    /// The method.
    pub closed spec fn method(&self) -> S {
        self.method
    }
}

impl<C: Clone, S: Clone> CodecMethodBundle<C, S> {
    /// A new instance of the method, for a request: a bundle of clones of
    /// this bundle's codec and method.
    pub fn new_service(&self) -> (r: Self)
        ensures
            cloned::<C>(self.codec(), r.codec()),
            cloned::<S>(self.method(), r.method()),
    {
        CodecMethodBundle { codec: self.codec.clone(), method: self.method.clone() }
    }
}

impl<C: MethodCodec, S: Service<
    Request = (C::Request, Controller),
    Response = (C::Response, Controller),
    Error = ProviderSetError,
>> CodecMethodBundle<C, S> {
    /// What a call answers once the method answered `outcome`.
    pub fn respond(&self, outcome: Result<(C::Response, Controller), ProviderSetError>) -> (r: Result<
        (Bytes, Controller),
        RequestProcessError,
    >)
        ensures
            responds(self.codec(), outcome, r),
    {
        match outcome {
            Err(e) => Err(RequestProcessError::ProviderSetError(e)),
            Ok((m, c)) => match self.codec.encode(m) {
                Ok(b) => Ok((b, c)),
                Err(_) => Err(RequestProcessError::ResponseEncodeError),
            },
        }
    }

    /// Decodes the body, calls the method and encodes its answer.
    pub fn call(&self, req: (Bytes, Controller)) -> (r: Result<(Bytes, Controller), RequestProcessError>)
        ensures
            (r matches Err(x) && x@ == RequestProcessErrorModel::RequestDecodeError) <==> !self.codec().decodes(
                bytes_content(req.0),
            ),
            r matches Ok((b, _)) ==> exists|m: C::Response| self.codec().encodes_to(m, bytes_content(b)),
            bundle_answers(self.codec(), bytes_content(req.0), r),
            provider_answers(self.codec(), self.method(), req, r),
    {
        let (body, controller) = req;
        match self.codec.decode(body) {
            Err(_) => Err(RequestProcessError::RequestDecodeError),
            Ok(m) => {
                let outcome = self.method.call((m, controller));
                let ghost o = outcome;
                let r = self.respond(outcome);
                proof {
                    match o {
                        Ok((om, _)) => {
                            if self.codec().encodable(om) {
                                assert(r matches Ok((b, _)) && self.codec().encodable(om)
                                    && self.codec().encodes_to(om, bytes_content(b)));
                            } else {
                                assert(!self.codec().encodable(om));
                            }
                        },
                        Err(_) => {},
                    }
                }
                r
            },
        }
    }
}

/// The response package of a processed request: the response meta, the
/// controller and the body.
pub type ResponsePackageModel = (ResponseMetaModel, ControllerModel, Seq<u8>);

/// The package that answers a call that failed.
pub open spec fn failure_package() -> ResponsePackageModel {
    (ResponseMetaModel { error_code: 1, error_text: "Unknown error"@ }, default_controller(), Seq::empty())
}

/// Turns the outcome of a method into a response package: error code zero
/// with the method's controller and body, or code one with the text
/// "Unknown error", a default controller and no body.
pub fn result_to_errno<E>(result: Result<(Bytes, Controller), E>) -> (r: (
    RpcResponseMeta,
    Controller,
    Bytes,
))
    ensures
        match result {
            Ok((body, ctrl)) => r.0@ == (ResponseMetaModel { error_code: 0, error_text: Seq::empty() })
                && r.1 == ctrl && r.2 == body,
            Err(_) => (r.0@, r.1@, bytes_content(r.2)) == failure_package(),
        },
{
    match result {
        Ok((body, controller)) => {
            let mut meta = RpcResponseMeta::new();
            meta.set_error_code(0);
            (meta, controller, body)
        },
        Err(_) => {
            let mut meta = RpcResponseMeta::new();
            meta.set_error_code(1);
            let mut text: Vec<char> = Vec::new();
            push_str(&mut text, "Unknown error");
            meta.set_error_text(string_from_chars(text.as_slice()));
            (meta, Controller::default(), bytes_empty())
        },
    }
}

/// The server's entry point: finds the method a request package names and
/// turns its outcome into a response package.
#[derive(Debug)]
pub struct MetaService<M> {
    registry: ServiceRegistry<M>,
}

/// The package that answers a request that failed with `e`: the error's
/// code and message, a default controller and no body.
pub open spec fn error_package(e: RequestProcessErrorModel) -> ResponsePackageModel {
    (
        ResponseMetaModel { error_code: kind_code(process_error_kind(e)), error_text: process_error_text(e) },
        default_controller(),
        Seq::empty(),
    )
}

/// The answer to a failed request tells the client the kind of its error:
/// the code is not the success code, and it stands for the error's kind.
pub proof fn lemma_error_package_names_kind(e: RequestProcessErrorModel)
    ensures
        error_package(e).0.error_code != 0,
        code_kind(error_package(e).0.error_code) == process_error_kind(e),
{
    lemma_kind_code_round_trip(process_error_kind(e));
}

/// The package that answers a request whose method answered `outcome`:
/// error code zero with the method's controller and body, or the error's
/// package.
pub open spec fn answer_package(outcome: Result<(Bytes, Controller), RequestProcessError>) -> ResponsePackageModel {
    match outcome {
        Ok((body, ctrl)) => (ResponseMetaModel { error_code: 0, error_text: Seq::empty() }, ctrl@, bytes_content(body)),
        Err(e) => error_package(e@),
    }
}

/// The response package for the outcome of a method.
pub fn errno_package(outcome: Result<(Bytes, Controller), RequestProcessError>) -> (r: (
    RpcResponseMeta,
    Controller,
    Bytes,
))
    ensures
        (r.0@, r.1@, bytes_content(r.2)) == answer_package(outcome),
        outcome matches Ok((body, ctrl)) ==> r.1 == ctrl && r.2 == body,
{
    match outcome {
        Ok((body, controller)) => {
            let mut meta = RpcResponseMeta::new();
            meta.set_error_code(0);
            (meta, controller, body)
        },
        Err(e) => {
            let mut meta = RpcResponseMeta::new();
            meta.set_error_code(e.error_code());
            meta.set_error_text(e.to_string());
            (meta, Controller::default(), bytes_empty())
        },
    }
}

impl<M: Service<
    Request = (Bytes, Controller),
    Response = (Bytes, Controller),
    Error = RequestProcessError,
>> MetaService<M> {
    /// A service over the methods of `registry`.
    pub fn new(registry: ServiceRegistry<M>) -> (r: Self)
        ensures
            r.registry()@ == registry@,
    {
        MetaService { registry }
    }

    /// The registry.
    pub closed spec fn registry(&self) -> ServiceRegistry<M> {
        self.registry
    }

    /// Answers a request package: the method that the meta names gets the
    /// body and the controller, and its outcome becomes the response
    /// package; an unknown service or method answers the package of that
    /// dispatch error.
    pub fn call(&self, req: (RpcRequestMeta, Controller, Bytes)) -> (r: (RpcResponseMeta, Controller, Bytes))
        ensures
            ({
                let s = req.0@.service_name;
                let m = req.0@.method_name;
                let answer = (r.0@, r.1@, bytes_content(r.2));
                match registry_lookup(self.registry()@, s, m) {
                    LookupModel::Found(x) => exists|o: Result<(Bytes, Controller), RequestProcessError>|
                        #[trigger] call_ensures(M::call, (&x, (req.2, req.1)), o) && answer == answer_package(o),
                    LookupModel::ServiceNotFound => answer == error_package(
                        RequestProcessErrorModel::DispatchError(DispatchErrorModel::ServiceNotFound(s)),
                    ),
                    LookupModel::MethodNotFound => answer == error_package(
                        RequestProcessErrorModel::DispatchError(DispatchErrorModel::MethodNotFound(s, m)),
                    ),
                }
            }),
    {
        let (meta, controller, body) = req;
        let RpcRequestMeta { service_name, method_name } = meta;
        match self.registry.get_method(service_name, method_name) {
            Err(e) => errno_package(Err(RequestProcessError::DispatchError(e))),
            Ok(method) => {
                let outcome = method.call((body, controller));
                errno_package(outcome)
            },
        }
    }
}

} // verus!
