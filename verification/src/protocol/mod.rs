//! Message protocols: how packages are cut out of a byte stream and written
//! into one, and the codecs that pick the protocol of a connection.

use bytes::{Bytes, BytesMut};
use smallvec::SmallVec;
use vstd::prelude::*;

pub mod brpc;
pub mod http;

pub use self::brpc::BrpcProtocol;
pub use self::http::HttpProtocol;

use self::brpc::{
    brpc_frame, brpc_frame_fits, brpc_parse, lemma_brpc_roundtrip, BrpcParseState,
};
use self::http::{http_parse, http_response_bytes, HttpStateModel};
use crate::buffer::{buf_content, bytes_content};
use crate::controller::{default_controller, Controller, ControllerModel};
use crate::message::{
    default_request_meta, MetaModel, RequestMetaModel, ResponseMetaModel, RpcMeta, RpcRequestMeta,
    RpcResponseMeta,
};

verus! {

/// Protocol selection.
#[derive(Clone, Copy, Debug, PartialEq, Eq)]
pub enum Protocol {
    /// The brpc protocol.
    Brpc,
    /// Plain http 1.x.
    Http,
}

/// Why a protocol could not cut a package out of the stream.
#[derive(Clone, Copy, Debug, PartialEq, Eq)]
pub enum ProtocolError {
    /// The bytes do not start a package of this protocol; try the next one.
    TryOthers,
    /// The package is not complete yet.
    NeedMoreBytes,
    /// The bytes started a package of this protocol but do not form one.
    AbsolutelyWrong,
}

/// A protocol together with the progress of the package it is reading.
#[derive(Debug)]
pub enum RpcProtocol {
    /// The brpc protocol.
    Brpc(BrpcProtocol),
    /// Plain http 1.x.
    Http(HttpProtocol),
}

/// Abstract value of an [`RpcProtocol`]: which protocol, and its progress.
pub enum SchemeModel {
    Brpc(BrpcParseState),
    Http(HttpStateModel),
}

impl View for RpcProtocol {
    type V = SchemeModel;

    open spec fn view(&self) -> SchemeModel {
        match self {
            RpcProtocol::Brpc(p) => SchemeModel::Brpc(p.parse_state()),
            RpcProtocol::Http(p) => SchemeModel::Http(p.parse_state()),
        }
    }
}

/// A package as a protocol cuts it out: meta, controller and body.
pub type PackageModel = (MetaModel, ControllerModel, Seq<u8>);

/// One parse step of a scheme: the package or why there is none, the new
/// scheme, and what is left of the buffer.
pub open spec fn scheme_parse(s: SchemeModel, buf: Seq<u8>) -> (
    Result<PackageModel, ProtocolError>,
    SchemeModel,
    Seq<u8>,
) {
    match s {
        SchemeModel::Brpc(st) => {
            let (r, st2, rest) = brpc_parse(st, buf);
            (
                match r {
                    Ok((m, b)) => Ok((m, default_controller(), b)),
                    Err(e) => Err(e),
                },
                SchemeModel::Brpc(st2),
                rest,
            )
        },
        SchemeModel::Http(st) => {
            let (r, st2, rest) = http_parse(st, buf);
            (
                match r {
                    Ok((m, c)) => Ok((m, c, Seq::empty())),
                    Err(e) => Err(e),
                },
                SchemeModel::Http(st2),
                rest,
            )
        },
    }
}

/// `r` is the package that `step` prescribes.
pub open spec fn package_matches(
    step: Result<PackageModel, ProtocolError>,
    r: Result<(u64, (RpcMeta, Controller, Bytes)), ProtocolError>,
) -> bool {
    match step {
        Err(e) => r == Err::<(u64, (RpcMeta, Controller, Bytes)), ProtocolError>(e),
        Ok((m, c, b)) => r matches Ok((id, (meta, ctrl, body))) && id == m.correlation_id && meta@ == m
            && ctrl@ == c && bytes_content(body) == b,
    }
}

/// The bytes a scheme writes for a package of `meta`, `ctrl` and `body`.
pub open spec fn scheme_package_bytes(s: SchemeModel, meta: MetaModel, ctrl: ControllerModel, body: Seq<u8>) -> Seq<u8> {
    match s {
        SchemeModel::Brpc(_) => brpc_frame(meta, body),
        SchemeModel::Http(_) => http_response_bytes(ctrl),
    }
}

/// The package fits what the scheme can write (and the buffer holding
/// `existing` bytes can grow to take it).
pub open spec fn scheme_can_write(s: SchemeModel, existing: nat, meta: MetaModel, ctrl: ControllerModel, body: Seq<u8>) -> bool {
    &&& existing + scheme_package_bytes(s, meta, ctrl, body).len() <= isize::MAX
    &&& (s is Brpc ==> brpc_frame_fits(meta, body))
}

impl RpcProtocol {
    /// A copy of this scheme, in the same state.
    pub fn new_boxed(&self) -> (r: RpcProtocol)
        ensures
            r@ == self@,
    {
        match self {
            RpcProtocol::Brpc(p) => RpcProtocol::Brpc(p.new_boxed()),
            RpcProtocol::Http(p) => RpcProtocol::Http(p.new_boxed()),
        }
    }

    /// A scheme for `proto` at the start of a package.
    pub fn of(proto: Protocol) -> (r: RpcProtocol)
        ensures
            r@ == match proto {
                Protocol::Brpc => SchemeModel::Brpc(BrpcParseState::ReadingHeader),
                Protocol::Http => SchemeModel::Http(HttpStateModel::ReadingHeader),
            },
    {
        match proto {
            Protocol::Brpc => RpcProtocol::Brpc(BrpcProtocol::new()),
            Protocol::Http => RpcProtocol::Http(HttpProtocol::new()),
        }
    }

    /// The protocol's name.
    pub fn name(&self) -> (r: &'static str)
        ensures
            r@ == match self@ {
                SchemeModel::Brpc(_) => "brpc"@,
                SchemeModel::Http(_) => "http"@,
            },
    {
        match self {
            RpcProtocol::Brpc(p) => p.name(),
            RpcProtocol::Http(p) => p.name(),
        }
    }

    /// Cuts the next package out of `buf` with this protocol.
    pub fn try_parse(&mut self, buf: &mut BytesMut) -> (r: Result<
        (u64, (RpcMeta, Controller, Bytes)),
        ProtocolError,
    >)
        ensures
            ({
                let step = scheme_parse(old(self)@, buf_content(*old(buf)));
                &&& package_matches(step.0, r)
                &&& final(self)@ == step.1
                &&& buf_content(*final(buf)) == step.2
            }),
    {
        match self {
            RpcProtocol::Brpc(p) => p.try_parse(buf),
            RpcProtocol::Http(p) => p.try_parse(buf),
        }
    }

    /// Whether a parse step on `buf` would find that the bytes do not start
    /// a package of this protocol.
    pub fn refuses(&self, buf: &BytesMut) -> (r: bool)
        ensures
            r == (scheme_parse(self@, buf_content(*buf)).0 == Err::<PackageModel, ProtocolError>(
                ProtocolError::TryOthers,
            )),
    {
        proof {
            lemma_refusal(self@, buf_content(*buf));
        }
        match self {
            RpcProtocol::Brpc(p) => p.refuses(buf),
            RpcProtocol::Http(_) => false,
        }
    }

    /// Appends a package to `buf` in this protocol.
    pub fn write_package(&self, pkg: (RpcMeta, Controller, Bytes), buf: &mut BytesMut)
        requires
            scheme_can_write(self@, buf_content(*old(buf)).len(), pkg.0@, pkg.1@, bytes_content(pkg.2)),
        ensures
            buf_content(*final(buf)) == buf_content(*old(buf)) + scheme_package_bytes(
                self@,
                pkg.0@,
                pkg.1@,
                bytes_content(pkg.2),
            ),
    {
        match self {
            RpcProtocol::Brpc(p) => p.write_package(pkg, buf),
            RpcProtocol::Http(p) => p.write_package(pkg, buf),
        }
    }
}

/// Only a brpc parser at the start of a package refuses bytes, and then
/// it keeps its state and the buffer.
pub proof fn lemma_refusal(s: SchemeModel, buf: Seq<u8>)
    ensures
        scheme_parse(s, buf).0 == Err::<PackageModel, ProtocolError>(ProtocolError::TryOthers) <==> (
        s == SchemeModel::Brpc(BrpcParseState::ReadingHeader) && buf.len() >= 4 && buf.take(4)
            != brpc::brpc_magic()),
        scheme_parse(s, buf).0 == Err::<PackageModel, ProtocolError>(ProtocolError::TryOthers) ==> (
        scheme_parse(s, buf).1 == s && scheme_parse(s, buf).2 == buf),
{
}

/// The schemes a server codec tries, held inline in a `smallvec::SmallVec`.
#[verifier::external_body]
#[derive(Debug)]
pub struct SchemeList {
    items: SmallVec<[RpcProtocol; 4]>,
}

/// The schemes that a [`SchemeList`] holds, in order.
pub uninterp spec fn scheme_list(v: SchemeList) -> Seq<RpcProtocol>;

/// `SmallVec::from_vec`: the same items, in the same order.
#[verifier::external_body]
fn schemes_from_vec(v: Vec<RpcProtocol>) -> (r: SchemeList)
    ensures
        scheme_list(r) == v@,
{
    SchemeList { items: SmallVec::from_vec(v) }
}

/// `SmallVec::len`.
#[verifier::external_body]
fn schemes_len(v: &SchemeList) -> (r: usize)
    ensures
        r == scheme_list(*v).len(),
{
    v.items.len()
}

/// Indexing a `SmallVec` (through its slice): item `i`.
#[verifier::external_body]
fn schemes_get(v: &SchemeList, i: usize) -> (r: &RpcProtocol)
    requires
        i < scheme_list(*v).len(),
    ensures
        *r == scheme_list(*v)[i as int],
{
    &v.items[i]
}

/// Puts `x` in place `i` of a `SmallVec` (through its slice) and returns the
/// item it replaces.
#[verifier::external_body]
fn schemes_replace(v: &mut SchemeList, i: usize, x: RpcProtocol) -> (r: RpcProtocol)
    requires
        i < scheme_list(*old(v)).len(),
    ensures
        r == scheme_list(*old(v))[i as int],
        scheme_list(*final(v)) == scheme_list(*old(v)).update(i as int, x),
    no_unwind
{
    std::mem::replace(&mut v.items[i], x)
}

/// Why the server codec could not decode a request.
#[derive(Clone, Copy, Debug, PartialEq, Eq)]
pub enum CodecError {
    /// No protocol recognizes the package.
    NoProtocolMatched,
    /// The package is not valid in its protocol.
    InvalidPackage,
    /// A response package lacks its response part.
    MissingResponse,
}

/// Server side codec that deduces the protocol from the byte stream.
///
/// On a new connection each protocol is tried in turn until one recognizes
/// the package; the match is kept, so later packages start with it.
#[derive(Debug)]
pub struct ProtoCodec {
    schemes: SchemeList,
    cached_scheme: usize,
    tried_num: i32,
}

/// A decoded request: correlation id, request meta, controller and body.
pub type RequestModel = (u64, (RequestMetaModel, ControllerModel, Seq<u8>));

/// What a decode call yields, and the codec's and buffer's new contents:
/// the schemes, the cached scheme, the number of schemes tried, and the rest
/// of the buffer.
pub type DecodeStep = (Result<Option<RequestModel>, CodecError>, Seq<SchemeModel>, nat, nat, Seq<u8>);

/// The request part of a meta; an absent part reads as the default.
pub open spec fn request_of(m: MetaModel) -> RequestMetaModel {
    match m.request {
        Some(r) => r,
        None => default_request_meta(),
    }
}

/// One decode call of a codec whose schemes are `ss`, trying scheme `cached`
/// with `tried` schemes already refused.
pub open spec fn codec_decode(ss: Seq<SchemeModel>, cached: nat, tried: nat, buf: Seq<u8>) -> DecodeStep
    decreases ss.len() - tried,
{
    if cached >= ss.len() || tried >= ss.len() {
        (Err(CodecError::NoProtocolMatched), ss, cached, tried, buf)
    } else {
        let (r, s2, rest) = scheme_parse(ss[cached as int], buf);
        let ss2 = ss.update(cached as int, s2);
        match r {
            Ok((m, c, b)) => (Ok(Some((m.correlation_id, (request_of(m), c, b)))), ss2, cached, 0, rest),
            Err(ProtocolError::NeedMoreBytes) => (Ok(None), ss2, cached, tried, rest),
            Err(ProtocolError::AbsolutelyWrong) => (Err(CodecError::InvalidPackage), ss2, cached, tried, rest),
            Err(ProtocolError::TryOthers) => {
                let c2 = ((cached + 1) as int % (ss.len() as int)) as nat;
                if tried + 1 >= ss.len() {
                    (Err(CodecError::NoProtocolMatched), ss2, c2, 0, rest)
                } else {
                    codec_decode(ss2, c2, tried + 1, rest)
                }
            },
        }
    }
}

/// `r` is the decoded request that `res` prescribes.
pub open spec fn request_matches(
    res: Result<Option<RequestModel>, CodecError>,
    r: Result<Option<(u64, (RpcRequestMeta, Controller, Bytes))>, CodecError>,
) -> bool {
    match res {
        Err(e) => r == Err::<Option<(u64, (RpcRequestMeta, Controller, Bytes))>, CodecError>(e),
        Ok(None) => r == Ok::<Option<(u64, (RpcRequestMeta, Controller, Bytes))>, CodecError>(None),
        Ok(Some((id, (m, c, b)))) => r matches Ok(Some((rid, (meta, ctrl, body)))) && rid == id && meta@ == m
            && ctrl@ == c && bytes_content(body) == b,
    }
}

impl ProtoCodec {
    #[verifier::type_invariant]
    spec fn well_formed(self) -> bool {
        let n = scheme_list(self.schemes).len();
        &&& n <= i32::MAX
        &&& (self.cached_scheme < n || self.cached_scheme == 0)
        &&& 0 <= self.tried_num
        &&& (self.tried_num < n || self.tried_num == 0)
    }

    /// The schemes, with their progress.
    pub closed spec fn schemes(&self) -> Seq<SchemeModel> {
        scheme_list(self.schemes).map_values(|p: RpcProtocol| p@)
    }

    /// The scheme that is tried first.
    pub closed spec fn cached(&self) -> nat {
        self.cached_scheme as nat
    }

    /// How many schemes have refused the package being decoded.
    pub closed spec fn tried(&self) -> nat {
        self.tried_num as nat
    }

    /// A codec that tries copies of the schemes of `protos`, in order.
    pub fn new(protos: &[RpcProtocol]) -> (r: Self)
        requires
            protos@.len() <= i32::MAX,
        ensures
            r.schemes() == protos@.map_values(|p: RpcProtocol| p@),
            r.cached() == 0,
            r.tried() == 0,
    {
        let mut v: Vec<RpcProtocol> = Vec::new();
        let mut i: usize = 0;
        while i < protos.len()
            invariant
                i <= protos@.len(),
                v@.len() == i,
                forall|k: int| 0 <= k < i ==> (#[trigger] v@[k])@ == protos@[k]@,
            decreases protos@.len() - i,
        {
            v.push(protos[i].new_boxed());
            i = i + 1;
        }
        let schemes = schemes_from_vec(v);
        let r = ProtoCodec { schemes, cached_scheme: 0, tried_num: 0 };
        assert(r.schemes() =~= protos@.map_values(|p: RpcProtocol| p@));
        r
    }

    /// Decodes the next request from `buf`: `Ok(None)` when more bytes are
    /// needed. When the cached scheme does not recognize the package the
    /// next one is tried, until every scheme has refused it.
    pub fn decode(&mut self, buf: &mut BytesMut) -> (r: Result<
        Option<(u64, (RpcRequestMeta, Controller, Bytes))>,
        CodecError,
    >)
        requires
            old(self).schemes().len() > 0,
        ensures
            ({
                let step = codec_decode(old(self).schemes(), old(self).cached(), old(self).tried(), buf_content(*old(buf)));
                &&& request_matches(step.0, r)
                &&& final(self).schemes() == step.1
                &&& final(self).cached() == step.2
                &&& final(self).tried() == step.3
                &&& buf_content(*final(buf)) == step.4
            }),
    {
        proof {
            use_type_invariant(&*self);
        }
        let n = schemes_len(&self.schemes);
        loop
            invariant
                n == scheme_list(self.schemes).len(),
                0 < n <= i32::MAX,
                self.cached_scheme < n,
                0 <= self.tried_num < n,
                codec_decode(self.schemes(), self.cached(), self.tried(), buf_content(*buf))
                    == codec_decode(old(self).schemes(), old(self).cached(), old(self).tried(), buf_content(*old(buf))),
            decreases n - self.tried_num,
        {
            let ghost cur = codec_decode(self.schemes(), self.cached(), self.tried(), buf_content(*buf));
            let ghost step = scheme_parse(self.schemes()[self.cached() as int], buf_content(*buf));
            let res = self.parse_with_cached(buf);
            proof {
                use_type_invariant(&*self);
            }
            match res {
                Ok((id, (mut meta, controller, body))) => {
                    self.tried_num = 0;
                    let req = meta.take_request();
                    let r = Ok(Some((id, (req, controller, body))));
                    assert(request_matches(cur.0, r));
                    return r;
                },
                Err(ProtocolError::NeedMoreBytes) => {
                    return Ok(None);
                },
                Err(ProtocolError::AbsolutelyWrong) => {
                    return Err(CodecError::InvalidPackage);
                },
                Err(ProtocolError::TryOthers) => {
                    self.cached_scheme = (self.cached_scheme + 1) % n;
                    let tried = self.tried_num + 1;
                    if tried as usize >= n {
                        self.tried_num = 0;
                        return Err(CodecError::NoProtocolMatched);
                    }
                    self.tried_num = tried;
                },
            }
        }
    }

    /// Runs the cached scheme's parse step on `buf`.
    fn parse_with_cached(&mut self, buf: &mut BytesMut) -> (r: Result<
        (u64, (RpcMeta, Controller, Bytes)),
        ProtocolError,
    >)
        requires
            old(self).schemes().len() > 0,
        ensures
            ({
                let step = scheme_parse(old(self).schemes()[old(self).cached() as int], buf_content(*old(buf)));
                &&& package_matches(step.0, r)
                &&& final(self).schemes() == old(self).schemes().update(old(self).cached() as int, step.1)
                &&& buf_content(*final(buf)) == step.2
            }),
            final(self).cached() == old(self).cached(),
            final(self).tried() == old(self).tried(),
            scheme_list(final(self).schemes).len() == scheme_list(old(self).schemes).len(),
    {
        proof {
            use_type_invariant(&*self);
        }
        let ghost ss = self.schemes();
        let i = self.cached_scheme;
        let mut scheme = schemes_replace(&mut self.schemes, i, RpcProtocol::Brpc(BrpcProtocol::new()));
        let res = scheme.try_parse(buf);
        let ghost s2 = scheme@;
        let _ = schemes_replace(&mut self.schemes, i, scheme);
        assert(self.schemes() =~= ss.update(i as int, s2));
        res
    }

    /// Appends the response package of `msg` (correlation id, response meta,
    /// controller and body) to `buf`, in the protocol the connection was
    /// recognized with.
    pub fn encode(&mut self, msg: (u64, (RpcResponseMeta, Controller, Bytes)), buf: &mut BytesMut)
        requires
            old(self).schemes().len() > 0,
            ({
                let (id, (resp, ctrl, body)) = msg;
                scheme_can_write(
                    old(self).schemes()[old(self).cached() as int],
                    buf_content(*old(buf)).len(),
                    response_package_meta(id, resp@),
                    ctrl@,
                    bytes_content(body),
                )
            }),
        ensures
            final(self).schemes() == old(self).schemes(),
            final(self).cached() == old(self).cached(),
            final(self).tried() == old(self).tried(),
            ({
                let (id, (resp, ctrl, body)) = msg;
                buf_content(*final(buf)) == buf_content(*old(buf)) + scheme_package_bytes(
                    old(self).schemes()[old(self).cached() as int],
                    response_package_meta(id, resp@),
                    ctrl@,
                    bytes_content(body),
                )
            }),
    {
        proof {
            use_type_invariant(&*self);
        }
        let (id, (resp_meta, controller, body)) = msg;
        let mut meta = RpcMeta::new();
        meta.set_response(resp_meta);
        meta.set_correlation_id(id);
        let scheme = schemes_get(&self.schemes, self.cached_scheme);
        scheme.write_package((meta, controller, body), buf);
    }
}

/// The meta of a response package with id `id`.
pub open spec fn response_package_meta(id: u64, resp: ResponseMetaModel) -> MetaModel {
    MetaModel { request: None, response: Some(resp), correlation_id: id }
}

/// The meta of a request package with id `id`.
pub open spec fn request_package_meta(id: u64, req: RequestMetaModel) -> MetaModel {
    MetaModel { request: Some(req), response: None, correlation_id: id }
}

/// Client side codec: one protocol, responses in, requests out.
#[derive(Debug)]
pub struct ProtoCodecClient {
    scheme: RpcProtocol,
}

impl ProtoCodecClient {
    /// The protocol, with its progress.
    pub closed spec fn scheme(&self) -> SchemeModel {
        self.scheme@
    }

    /// A client codec speaking `proto`.
    pub fn new(proto: RpcProtocol) -> (r: Self)
        ensures
            r.scheme() == proto@,
    {
        ProtoCodecClient { scheme: proto }
    }

    /// Decodes the next response from `buf`: the correlation id, the
    /// response meta and the body; `Ok(None)` when more bytes are needed.
    pub fn decode(&mut self, buf: &mut BytesMut) -> (r: Result<
        Option<(u64, (RpcResponseMeta, Bytes))>,
        CodecError,
    >)
        ensures
            ({
                let step = scheme_parse(old(self).scheme(), buf_content(*old(buf)));
                &&& final(self).scheme() == step.1
                &&& buf_content(*final(buf)) == step.2
                &&& match step.0 {
                    Err(ProtocolError::NeedMoreBytes) => r == Ok::<
                        Option<(u64, (RpcResponseMeta, Bytes))>,
                        CodecError,
                    >(None),
                    Err(_) => r == Err::<Option<(u64, (RpcResponseMeta, Bytes))>, CodecError>(
                        CodecError::InvalidPackage,
                    ),
                    Ok((m, _, b)) => match m.response {
                        None => r == Err::<Option<(u64, (RpcResponseMeta, Bytes))>, CodecError>(
                            CodecError::MissingResponse,
                        ),
                        Some(resp) => r matches Ok(Some((id, (x, body)))) && id == m.correlation_id
                            && x@ == resp && bytes_content(body) == b,
                    },
                }
            }),
    {
        match self.scheme.try_parse(buf) {
            Ok((id, (mut meta, _, body))) => {
                if !meta.has_response() {
                    return Err(CodecError::MissingResponse);
                }
                Ok(Some((id, (meta.take_response(), body))))
            },
            Err(ProtocolError::NeedMoreBytes) => Ok(None),
            Err(_) => Err(CodecError::InvalidPackage),
        }
    }

    /// Appends the request package of `msg` (correlation id, request meta and
    /// body) to `buf`.
    pub fn encode(&mut self, msg: (u64, (RpcRequestMeta, Bytes)), buf: &mut BytesMut)
        requires
            scheme_can_write(
                old(self).scheme(),
                buf_content(*old(buf)).len(),
                request_package_meta(msg.0, (msg.1).0@),
                default_controller(),
                bytes_content((msg.1).1),
            ),
        ensures
            final(self).scheme() == old(self).scheme(),
            buf_content(*final(buf)) == buf_content(*old(buf)) + scheme_package_bytes(
                old(self).scheme(),
                request_package_meta(msg.0, (msg.1).0@),
                default_controller(),
                bytes_content((msg.1).1),
            ),
    {
        let (id, (request_meta, body)) = msg;
        let mut meta = RpcMeta::new();
        meta.set_request(request_meta);
        meta.set_correlation_id(id);
        self.scheme.write_package((meta, Controller::default(), body), buf);
    }
}

/// A request that a client codec speaking brpc writes reaches a server
/// codec that tries brpc first as the same request (id, request meta, a
/// controller without details, and body), and what followed it stays in
/// the buffer; the server codec then keeps brpc first.
pub proof fn lemma_request_travels(id: u64, req: RequestMetaModel, body: Seq<u8>, others: Seq<SchemeModel>, rest: Seq<u8>)
    requires
        scheme_can_write(
            SchemeModel::Brpc(BrpcParseState::ReadingHeader),
            0,
            request_package_meta(id, req),
            default_controller(),
            body,
        ),
    ensures
        ({
            let ss = seq![SchemeModel::Brpc(BrpcParseState::ReadingHeader)] + others;
            let wire = scheme_package_bytes(
                SchemeModel::Brpc(BrpcParseState::ReadingHeader),
                request_package_meta(id, req),
                default_controller(),
                body,
            ) + rest;
            let step = codec_decode(ss, 0, 0, wire);
            &&& step.0 == Ok::<Option<RequestModel>, CodecError>(Some((id, (req, default_controller(), body))))
            &&& step.1 == ss
            &&& step.2 == 0
            &&& step.3 == 0
            &&& step.4 == rest
        }),
{
    let m = request_package_meta(id, req);
    lemma_brpc_roundtrip(m, body, rest);
    let ss = seq![SchemeModel::Brpc(BrpcParseState::ReadingHeader)] + others;
    assert(ss[0] == SchemeModel::Brpc(BrpcParseState::ReadingHeader));
    assert(ss.update(0, SchemeModel::Brpc(BrpcParseState::ReadingHeader)) =~= ss);
}

/// A response that a server codec writes in brpc reaches a client codec
/// speaking brpc as the same response (id, response meta and body), and
/// what followed it stays in the buffer.
pub proof fn lemma_response_travels(id: u64, resp: ResponseMetaModel, ctrl: ControllerModel, body: Seq<u8>, rest: Seq<u8>)
    requires
        scheme_can_write(
            SchemeModel::Brpc(BrpcParseState::ReadingHeader),
            0,
            response_package_meta(id, resp),
            ctrl,
            body,
        ),
    ensures
        ({
            let s = SchemeModel::Brpc(BrpcParseState::ReadingHeader);
            let wire = scheme_package_bytes(s, response_package_meta(id, resp), ctrl, body) + rest;
            let step = scheme_parse(s, wire);
            &&& step.0 == Ok::<PackageModel, ProtocolError>((response_package_meta(id, resp), default_controller(), body))
            &&& step.1 == s
            &&& step.2 == rest
        }),
{
    lemma_brpc_roundtrip(response_package_meta(id, resp), body, rest);
}

/// Once a decode call yields a request, the codec keeps the scheme that
/// recognized it as the one to try first, of the same protocol, with no
/// scheme counted as refused: the next package is read by that protocol
/// straight away.
pub proof fn lemma_decode_keeps_protocol(ss: Seq<SchemeModel>, cached: nat, tried: nat, buf: Seq<u8>)
    requires
        codec_decode(ss, cached, tried, buf).0 matches Ok(Some(_)),
    ensures
        ({
            let step = codec_decode(ss, cached, tried, buf);
            &&& step.1.len() == ss.len()
            &&& step.2 < ss.len()
            &&& step.3 == 0
            &&& (step.1[step.2 as int] is Brpc <==> ss[step.2 as int] is Brpc)
        }),
    decreases ss.len() - tried,
{
    let (r, s2, rest) = scheme_parse(ss[cached as int], buf);
    let ss2 = ss.update(cached as int, s2);
    match r {
        Err(ProtocolError::TryOthers) => {
            let c2 = ((cached + 1) as int % (ss.len() as int)) as nat;
            lemma_refusal(ss[cached as int], buf);
            assert(ss2 =~= ss);
            lemma_decode_keeps_protocol(ss2, c2, tried + 1, rest);
        },
        _ => {},
    }
}

} // verus!
