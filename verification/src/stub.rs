//! The client side of a call: what a stub sends, and what it makes of the
//! answer.

use bytes::Bytes;
use vstd::prelude::*;
use vstd::std_specs::cmp::PartialEqSpecImpl;

use crate::buffer::bytes_content;
use crate::channel::ChannelError;
use crate::codec::{MethodCodec, ProtoMessage};
use crate::load_balancer::CallInfo;
use crate::message::{RequestMetaModel, RpcRequestMeta, RpcResponseMeta};
use crate::service::MethodError;
use crate::text::{push_str, string_from_chars};

verus! {

/// The kind of error a call ends in.
#[derive(Clone, Copy, Debug, PartialEq, Eq, Structural)]
pub enum RpcErrorKind {
    /// The server found the request message invalid.
    InvalidRequest,
    /// The server failed in its own logic.
    InteralServerError,
    /// No server could be reached at the address.
    ServerNotFound,
    /// The server has no such service.
    ServiceNotFound,
    /// The service has no such method.
    MethodNotFound,
    /// The request failed to encode.
    RequestEncodeError,
    /// The response failed to decode.
    ResponseDecodeError,
    /// The server refused the request for lack of capacity.
    ServerOvercrowded,
    /// The deadline passed.
    TimeOut,
    /// The connection broke or was shut down.
    BrokenConnection,
    /// The channel reached its concurrency limit.
    ChannelOvercrowded,
}

/// The error code that carries a kind of error in a response meta. Zero is
/// left for success.
pub open spec fn kind_code(k: RpcErrorKind) -> i32 {
    match k {
        RpcErrorKind::InvalidRequest => 1,
        RpcErrorKind::InteralServerError => 2,
        RpcErrorKind::ServerNotFound => 3,
        RpcErrorKind::ServiceNotFound => 4,
        RpcErrorKind::MethodNotFound => 5,
        RpcErrorKind::RequestEncodeError => 6,
        RpcErrorKind::ResponseDecodeError => 7,
        RpcErrorKind::ServerOvercrowded => 8,
        RpcErrorKind::TimeOut => 9,
        RpcErrorKind::BrokenConnection => 10,
        RpcErrorKind::ChannelOvercrowded => 11,
    }
}

/// The kind an error code stands for; a code that stands for no kind is
/// read as an internal server error.
pub open spec fn code_kind(c: i32) -> RpcErrorKind {
    if c == 1 {
        RpcErrorKind::InvalidRequest
    } else if c == 3 {
        RpcErrorKind::ServerNotFound
    } else if c == 4 {
        RpcErrorKind::ServiceNotFound
    } else if c == 5 {
        RpcErrorKind::MethodNotFound
    } else if c == 6 {
        RpcErrorKind::RequestEncodeError
    } else if c == 7 {
        RpcErrorKind::ResponseDecodeError
    } else if c == 8 {
        RpcErrorKind::ServerOvercrowded
    } else if c == 9 {
        RpcErrorKind::TimeOut
    } else if c == 10 {
        RpcErrorKind::BrokenConnection
    } else if c == 11 {
        RpcErrorKind::ChannelOvercrowded
    } else {
        RpcErrorKind::InteralServerError
    }
}

/// Every kind has a nonzero code, and reading the code back gives the kind.
pub proof fn lemma_kind_code_round_trip(k: RpcErrorKind)
    ensures
        kind_code(k) != 0,
        code_kind(kind_code(k)) == k,
{
}

impl RpcErrorKind {
    /// The kind of error an error code stands for.
    pub fn from_error_code(code: i32) -> (r: Self)
        ensures
            r == code_kind(code),
    {
        match code {
            1 => RpcErrorKind::InvalidRequest,
            3 => RpcErrorKind::ServerNotFound,
            4 => RpcErrorKind::ServiceNotFound,
            5 => RpcErrorKind::MethodNotFound,
            6 => RpcErrorKind::RequestEncodeError,
            7 => RpcErrorKind::ResponseDecodeError,
            8 => RpcErrorKind::ServerOvercrowded,
            9 => RpcErrorKind::TimeOut,
            10 => RpcErrorKind::BrokenConnection,
            11 => RpcErrorKind::ChannelOvercrowded,
            _ => RpcErrorKind::InteralServerError,
        }
    }

    /// The error code of this kind.
    pub fn error_code(&self) -> (r: i32)
        ensures
            r == kind_code(*self),
    {
        match self {
            RpcErrorKind::InvalidRequest => 1,
            RpcErrorKind::InteralServerError => 2,
            RpcErrorKind::ServerNotFound => 3,
            RpcErrorKind::ServiceNotFound => 4,
            RpcErrorKind::MethodNotFound => 5,
            RpcErrorKind::RequestEncodeError => 6,
            RpcErrorKind::ResponseDecodeError => 7,
            RpcErrorKind::ServerOvercrowded => 8,
            RpcErrorKind::TimeOut => 9,
            RpcErrorKind::BrokenConnection => 10,
            RpcErrorKind::ChannelOvercrowded => 11,
        }
    }
}

/// The error a call ends in: its kind and a description.
#[derive(Clone, Debug)]
pub struct RpcError {
    kind: RpcErrorKind,
    text: String,
}

impl RpcError {
    /// The kind, in specifications.
    pub closed spec fn kind_of(&self) -> RpcErrorKind {
        self.kind
    }

    /// The description, in specifications.
    pub closed spec fn text_of(&self) -> Seq<char> {
        self.text@
    }

    /// An error of kind `kind` described by `text`.
    pub fn new(kind: RpcErrorKind, text: String) -> (r: Self)
        ensures
            r.kind_of() == kind,
            r.text_of() == text@,
    {
        RpcError { kind, text }
    }

    /// The error a call ends in when its channel fails: a full channel is
    /// overcrowded, a failing connection is broken, and any other failure
    /// is taken as the server's; the text is the channel error's message.
    pub fn from_channel_error(e: &ChannelError) -> (r: Self)
        ensures
            r.kind_of() == match e {
                ChannelError::ConcurrencyLimitReached => RpcErrorKind::ChannelOvercrowded,
                ChannelError::IoError(_) => RpcErrorKind::BrokenConnection,
                ChannelError::UnknownError => RpcErrorKind::InteralServerError,
            },
            match e {
                ChannelError::ConcurrencyLimitReached => r.text_of() == "Concurrency limit reached"@,
                ChannelError::IoError(_) => r.text_of().len() >= 10 && r.text_of().subrange(0, 10) == "Io error: "@,
                ChannelError::UnknownError => r.text_of() == "other errors might be worth discussion"@,
            },
    {
        let kind = match e {
            ChannelError::ConcurrencyLimitReached => RpcErrorKind::ChannelOvercrowded,
            ChannelError::IoError(_) => RpcErrorKind::BrokenConnection,
            ChannelError::UnknownError => RpcErrorKind::InteralServerError,
        };
        RpcError::new(kind, e.to_string())
    }

    /// The kind.
    pub fn kind(&self) -> (r: RpcErrorKind)
        ensures
            r == self.kind_of(),
    {
        self.kind
    }

    /// The description.
    pub fn text(&self) -> (r: &str)
        ensures
            r@ == self.text_of(),
    {
        self.text.as_str()
    }
}

impl PartialEq for RpcError {
    fn eq(&self, other: &Self) -> (r: bool) {
        self.kind == other.kind && self.text == other.text
    }
}

impl Eq for RpcError {
}

impl PartialEqSpecImpl for RpcError {
    open spec fn obeys_eq_spec() -> bool {
        true
    }

    /// Two errors are equal when their kinds and their texts are.
    open spec fn eq_spec(&self, other: &Self) -> bool {
        self.kind_of() == other.kind_of() && self.text_of() == other.text_of()
    }
}

/// Information about how a call was processed.
#[derive(Clone, Copy, Debug, PartialEq, Eq)]
pub struct RpcInfo;

/// The request package a stub sends: the request meta and the body.
pub type RequestPackageModel = (RequestMetaModel, Seq<u8>);

fn error_with(kind: RpcErrorKind, text: &str) -> (r: RpcError)
    ensures
        r.kind_of() == kind,
        r.text_of() == text@,
{
    let mut out: Vec<char> = Vec::new();
    push_str(&mut out, text);
    assert(out@ =~= text@);
    RpcError::new(kind, string_from_chars(out.as_slice()))
}

/// `r` is what a stub sends for `msg` to method `method` of service
/// `service`: the request package naming them and carrying the encoding of
/// `msg`, or, when `msg` does not fit, the request encode error.
pub open spec fn sends<M: ProtoMessage>(
    r: Result<(RpcRequestMeta, Bytes), RpcError>,
    service: Seq<char>,
    method: Seq<char>,
    msg: M::V,
) -> bool {
    if M::fits(msg) {
        r matches Ok((meta, body)) && meta@ == (RequestMetaModel { service_name: service, method_name: method })
            && bytes_content(body) == M::wire_of(msg)
    } else {
        r matches Err(e) && e.kind_of() == RpcErrorKind::RequestEncodeError && e.text_of()
            == "request encode error"@
    }
}

/// Binds a stub's method to a codec: encodes the request and names its
/// target.
#[derive(Debug)]
pub struct RpcWrapper<C> {
    codec: C,
}

impl<C> RpcWrapper<C> {
    /// A binding to `codec`.
    pub fn new(codec: C) -> (r: Self)
        ensures
            r.codec() == codec,
    {
        RpcWrapper { codec }
    }

    /// The codec.
    pub closed spec fn codec(&self) -> C {
        self.codec
    }
}

impl<C: MethodCodec> RpcWrapper<C> {
    /// The request package for `bundle` (the request, the service name and
    /// the method name), or the error the call ends in when the request
    /// fails to encode.
    pub fn call(&self, bundle: (C::Response, String, String)) -> (r: Result<(RpcRequestMeta, Bytes), RpcError>)
        ensures
            ({
                let (req, s, m) = bundle;
                if self.codec().encodable(req) {
                    r matches Ok((meta, body)) && meta@ == (RequestMetaModel { service_name: s@, method_name: m@ })
                        && self.codec().encodes_to(req, bytes_content(body))
                } else {
                    r matches Err(e) && e.kind_of() == RpcErrorKind::RequestEncodeError && e.text_of()
                        == "request encode error"@
                }
            }),
    {
        let (req, service_name, method_name) = bundle;
        match self.codec.encode(req) {
            Ok(body) => {
                let mut meta = RpcRequestMeta::new();
                meta.set_service_name(service_name);
                meta.set_method_name(method_name);
                Ok((meta, body))
            },
            Err(_) => Err(error_with(RpcErrorKind::RequestEncodeError, "request encode error")),
        }
    }
}

/// The body of an answer that reports success (error code zero); any other
/// code makes the call fail with an unknown error.
pub fn errno_to_result(result: (RpcResponseMeta, Bytes)) -> (r: Result<Bytes, MethodError>)
    ensures
        result.0@.error_code == 0 ==> r == Ok::<Bytes, MethodError>(result.1),
        result.0@.error_code != 0 ==> r == Err::<Bytes, MethodError>(MethodError::UnknownError),
{
    let (meta, body) = result;
    if meta.get_error_code() == 0 {
        Ok(body)
    } else {
        Err(MethodError::UnknownError)
    }
}

/// Turns the answer to a call into its result.
#[derive(Debug)]
pub struct StubFuture<C> {
    start_usec: u64,
    codec: C,
}

impl<C> StubFuture<C> {
    /// A pending call decoded with `codec`.
    pub fn new(codec: C) -> (r: Self)
        ensures
            r.codec() == codec,
            r.start_usec() == 0,
    {
        StubFuture { start_usec: 0, codec }
    }

    /// The codec.
    pub closed spec fn codec(&self) -> C {
        self.codec
    }

    /// When the call started.
    pub closed spec fn start_usec(&self) -> u64 {
        self.start_usec
    }
}

impl<C: MethodCodec> StubFuture<C> {
    /// The result of a call answered by `resp` (response meta and body),
    /// with the feedback for the load balancer when there is one.
    ///
    /// A nonzero error code fails the call with the kind that the code
    /// stands for and the meta's error text, and the feedback names that
    /// kind; code zero decodes the body.
    pub fn resolve(&self, resp: (RpcResponseMeta, Bytes)) -> (r: (
        Result<(C::Request, RpcInfo), RpcError>,
        Option<CallInfo>,
    ))
        ensures
            ({
                let code = resp.0@.error_code;
                let body = bytes_content(resp.1);
                if code != 0 {
                    &&& r.0 matches Err(e) && e.kind_of() == code_kind(code) && e.text_of() == resp.0@.error_text
                    &&& r.1 == Some(CallInfo { start_usec: self.start_usec(), error: Some(code_kind(code)) })
                } else if self.codec().decodes(body) {
                    &&& r.0 matches Ok((m, _)) && self.codec().decodes_to(body, m)
                    &&& r.1 == Some(CallInfo { start_usec: self.start_usec(), error: None })
                } else {
                    &&& r.0 matches Err(e) && e.kind_of() == RpcErrorKind::ResponseDecodeError
                        && e.text_of() == "response decode error"@
                    &&& r.1 is None
                }
            }),
    {
        let (meta, body) = resp;
        let code = meta.error_code;
        if code != 0 {
            let kind = RpcErrorKind::from_error_code(code);
            let err = RpcError::new(kind, meta.error_text);
            return (Err(err), Some(CallInfo::new(self.start_usec, Some(kind))));
        }
        match self.codec.decode(body) {
            Ok(m) => (Ok((m, RpcInfo)), Some(CallInfo::new(self.start_usec, None))),
            Err(_) => (Err(error_with(RpcErrorKind::ResponseDecodeError, "response decode error")), None),
        }
    }
}

} // verus!
