//! Plain http 1.x.

use vstd::prelude::*;

use bytes::{Bytes, BytesMut};
use vstd::utf8::{decode_utf8, encode_utf8, valid_utf8};

use super::ProtocolError;
use crate::buffer::{buf_as_slice, buf_content, buf_extend, buf_split_to, bytes_content, bytes_empty};
use crate::controller::{
    default_controller, has_key, header_insert, header_lookup, Controller, ControllerModel, HeaderMap,
};
use crate::message::{MetaModel, RequestMetaModel, RpcMeta, RpcRequestMeta};
use crate::text::{
    decimal_digits, decimal_string, parse_decimal, parse_unsigned, str_chars, string_from_chars,
    utf8_str,
};

verus! {

/// A request header as the http parser reports it: a name and raw value.
#[derive(Debug)]
pub struct RawHeader {
    /// Header name.
    pub name: String,
    /// Header value, not necessarily text.
    pub value: Vec<u8>,
}

/// What the http parser makes of the start of a buffer.
#[derive(Debug)]
pub enum HttpHead {
    /// A complete request head: its length in bytes, the request target, and
    /// the headers in order.
    Complete { header_len: usize, path: Option<String>, headers: Vec<RawHeader> },
    /// The head is not complete yet.
    Partial,
    /// The bytes are not an http request head (or have too many headers).
    Invalid,
}

/// Abstract value of an [`HttpHead`].
pub enum HttpHeadModel {
    Complete { header_len: nat, path: Option<Seq<char>>, headers: Seq<(Seq<char>, Seq<u8>)> },
    Partial,
    Invalid,
}

impl View for HttpHead {
    type V = HttpHeadModel;

    open spec fn view(&self) -> HttpHeadModel {
        match self {
            HttpHead::Complete { header_len, path, headers } => HttpHeadModel::Complete {
                header_len: *header_len as nat,
                path: match path {
                    Some(p) => Some(p@),
                    None => None,
                },
                headers: headers@.map_values(|h: RawHeader| (h.name@, h.value@)),
            },
            HttpHead::Partial => HttpHeadModel::Partial,
            HttpHead::Invalid => HttpHeadModel::Invalid,
        }
    }
}

/// What `httparse` makes of `buf` as a request head, with room for
/// `max_headers` headers.
pub uninterp spec fn http_request_head(buf: Seq<u8>, max_headers: usize) -> HttpHeadModel;

/// `httparse::Request::parse` on `buf` with room for `max_headers` headers;
/// the result is converted to owned values. Trusted only to be a function of
/// the bytes and the room, named `http_request_head`.
#[verifier::external_body]
fn parse_request_head(buf: &[u8], max_headers: usize) -> (r: HttpHead)
    ensures
        r@ == http_request_head(buf@, max_headers),
{
    let mut headers = vec![httparse::EMPTY_HEADER; max_headers];
    let mut req = httparse::Request::new(&mut headers);
    match req.parse(buf) {
        Ok(httparse::Status::Complete(n)) => HttpHead::Complete {
            header_len: n,
            path: req.path.map(|p| p.to_string()),
            headers: req.headers.iter().map(
                |h| RawHeader { name: h.name.to_string(), value: h.value.to_vec() },
            ).collect(),
        },
        Ok(httparse::Status::Partial) => HttpHead::Partial,
        Err(_) => HttpHead::Invalid,
    }
}

/// The non-empty `/`-separated segments of a request target.
pub open spec fn path_segments(p: Seq<char>) -> Seq<Seq<char>>
    decreases p.len(),
{
    if p.len() == 0 {
        seq![]
    } else {
        let q = p.drop_last();
        let c = p.last();
        if c == '/' {
            path_segments(q)
        } else if q.len() > 0 && q.last() != '/' {
            let r = path_segments(q);
            r.update(r.len() - 1, r.last().push(c))
        } else {
            path_segments(q).push(seq![c])
        }
    }
}

/// Service and method name of a request target: its first two segments.
pub open spec fn target_names(p: Seq<char>) -> Option<(Seq<char>, Seq<char>)> {
    let segs = path_segments(p);
    if segs.len() < 2 {
        None
    } else {
        Some((segs[0], segs[1]))
    }
}

proof fn lemma_path_segments_nonempty(p: Seq<char>)
    requires
        p.len() > 0,
        p.last() != '/',
    ensures
        path_segments(p).len() > 0,
    decreases p.len(),
{
    let q = p.drop_last();
    if q.len() > 0 && q.last() != '/' {
        lemma_path_segments_nonempty(q);
    }
}

/// The status of an http response.
#[derive(Clone, Copy, Debug, PartialEq, Eq)]
pub enum HttpStatus {
    /// 200
    OK,
    /// 403
    Forbidden,
}

impl HttpStatus {
    /// The numeric status code.
    pub fn to_code(&self) -> (r: i32)
        ensures
            r == match *self {
                HttpStatus::OK => 200i32,
                HttpStatus::Forbidden => 403i32,
            },
    {
        match *self {
            HttpStatus::OK => 200,
            HttpStatus::Forbidden => 403,
        }
    }

    /// The status line text: code and reason phrase.
    pub fn to_status_line(&self) -> (r: &'static str)
        ensures
            r@ == status_line_text(*self),
    {
        match *self {
            HttpStatus::OK => "200 OK",
            HttpStatus::Forbidden => "403 Forbidden",
        }
    }
}

/// The status line text of `s`.
pub open spec fn status_line_text(s: HttpStatus) -> Seq<char> {
    match s {
        HttpStatus::OK => "200 OK"@,
        HttpStatus::Forbidden => "403 Forbidden"@,
    }
}


/// Service and method name from a request target such as `/Echo/echo`:
/// the first two non-empty segments.
pub fn parse_name(path: &str) -> (r: Option<(String, String)>)
    ensures
        match target_names(path@) {
            None => r is None,
            Some((s, m)) => r matches Some((x, y)) && x@ == s && y@ == m,
        },
{
    let chars = str_chars(path);
    let n = chars.len();
    let mut segs: Vec<Vec<char>> = Vec::new();
    let mut i: usize = 0;
    while i < n
        invariant
            chars@ == path@,
            n == chars@.len(),
            i <= n,
            segs@.map_values(|v: Vec<char>| v@) == path_segments(path@.subrange(0, i as int)),
        decreases n - i,
    {
        let c = chars[i];
        let ghost q = path@.subrange(0, i as int);
        let ghost p2 = path@.subrange(0, i + 1);
        assert(p2.drop_last() =~= q);
        assert(p2.last() == c);
        let ghost prev = segs@;
        if c == '/' {
        } else if i > 0 && chars[i - 1] != '/' {
            assert(q.last() == chars@[i - 1]);
            proof {
                lemma_path_segments_nonempty(q);
            }
            let mut last = segs.pop().unwrap();
            last.push(c);
            segs.push(last);
            assert(segs@.map_values(|v: Vec<char>| v@) =~= path_segments(p2));
        } else {
            let mut seg: Vec<char> = Vec::new();
            seg.push(c);
            segs.push(seg);
            assert(segs@.map_values(|v: Vec<char>| v@) =~= path_segments(p2));
        }
        i = i + 1;
    }
    assert(path@.subrange(0, n as int) =~= path@);
    if segs.len() < 2 {
        None
    } else {
        let a = string_from_chars(segs[0].as_slice());
        let b = string_from_chars(segs[1].as_slice());
        Some((a, b))
    }
}

/// The most headers a request may carry.
pub const MAX_HEADERS: usize = 10;

/// True when every header value is UTF-8 text.
pub open spec fn header_values_utf8(hs: Seq<(Seq<char>, Seq<u8>)>) -> bool {
    forall|i: int| 0 <= i < hs.len() ==> valid_utf8(#[trigger] hs[i].1)
}

/// The header map built from the headers in order: a later header with the
/// same name replaces the value of an earlier one.
pub open spec fn header_map_of(hs: Seq<(Seq<char>, Seq<u8>)>) -> Seq<(Seq<char>, Seq<char>)>
    decreases hs.len(),
{
    if hs.len() == 0 {
        seq![]
    } else {
        header_insert(header_map_of(hs.drop_last()), hs.last().0, decode_utf8(hs.last().1))
    }
}

/// A number from an optional header value: zero when the header is absent.
pub open spec fn header_number(v: Option<Seq<char>>, max: nat) -> Option<nat> {
    match v {
        None => Some(0),
        Some(s) => parse_unsigned(s, max),
    }
}

/// How far an http parser has read into the request at the front of the
/// stream.
#[derive(Debug)]
pub enum HttpParseState {
    /// Expecting a request head.
    ReadingHeader,
    /// The head has been read: its length, the body length, the meta and
    /// the controller it gave.
    ReadingContent(usize, usize, RpcMeta, Controller),
}

/// Abstract value of an [`HttpParseState`].
pub enum HttpStateModel {
    ReadingHeader,
    ReadingContent(nat, nat, MetaModel, ControllerModel),
}

impl View for HttpParseState {
    type V = HttpStateModel;

    open spec fn view(&self) -> HttpStateModel {
        match self {
            HttpParseState::ReadingHeader => HttpStateModel::ReadingHeader,
            HttpParseState::ReadingContent(h, c, m, ctrl) => HttpStateModel::ReadingContent(
                *h as nat,
                *c as nat,
                m@,
                ctrl@,
            ),
        }
    }
}

/// The state a complete request head leads to, or why it leads nowhere.
pub open spec fn http_head_state(head: HttpHeadModel) -> Result<HttpStateModel, ProtocolError> {
    match head {
        HttpHeadModel::Partial => Err(ProtocolError::NeedMoreBytes),
        HttpHeadModel::Invalid => Err(ProtocolError::AbsolutelyWrong),
        HttpHeadModel::Complete { header_len, path, headers } => {
            let map = header_map_of(headers);
            if !header_values_utf8(headers) {
                Err(ProtocolError::AbsolutelyWrong)
            } else {
                match path {
                    None => Err(ProtocolError::AbsolutelyWrong),
                    Some(p) => match (
                        header_number(header_lookup(map, "Correlation-Id"@), u64::MAX as nat),
                        header_number(header_lookup(map, "Content-Length"@), usize::MAX as nat),
                        target_names(p),
                    ) {
                        (Some(id), Some(len), Some((service, method))) => Ok(
                            HttpStateModel::ReadingContent(
                                header_len,
                                len,
                                MetaModel {
                                    request: Some(
                                        RequestMetaModel { service_name: service, method_name: method },
                                    ),
                                    response: None,
                                    correlation_id: id as u64,
                                },
                                ControllerModel {
                                    http_url: Some(p),
                                    headers: map,
                                    ..default_controller()
                                },
                            ),
                        ),
                        _ => Err(ProtocolError::AbsolutelyWrong),
                    },
                }
            }
        },
    }
}

/// What an http parse step yields: the request (meta and controller) or
/// why there is none, the new state, and what is left of the buffer.
pub type HttpStep = (Result<(MetaModel, ControllerModel), ProtocolError>, HttpStateModel, Seq<u8>);

/// The step once the head has been read: the body follows the head.
pub open spec fn http_content(h: nat, c: nat, m: MetaModel, ctrl: ControllerModel, buf: Seq<u8>) -> HttpStep {
    if buf.len() < h + c {
        (Err(ProtocolError::NeedMoreBytes), HttpStateModel::ReadingContent(h, c, m, ctrl), buf)
    } else {
        (
            Ok((m, ControllerModel { request_body: buf.subrange(h as int, (h + c) as int), ..ctrl })),
            HttpStateModel::ReadingHeader,
            buf.skip((h + c) as int),
        )
    }
}

/// One call of the parser in state `state` on the buffer `buf`.
pub open spec fn http_parse(state: HttpStateModel, buf: Seq<u8>) -> HttpStep {
    match state {
        HttpStateModel::ReadingHeader => match http_head_state(
            http_request_head(buf, MAX_HEADERS),
        ) {
            Err(e) => (Err(e), HttpStateModel::ReadingHeader, buf),
            Ok(HttpStateModel::ReadingContent(h, c, m, ctrl)) => http_content(h, c, m, ctrl, buf),
            Ok(HttpStateModel::ReadingHeader) => (
                Err(ProtocolError::AbsolutelyWrong),
                HttpStateModel::ReadingHeader,
                buf,
            ),
        },
        HttpStateModel::ReadingContent(h, c, m, ctrl) => http_content(h, c, m, ctrl, buf),
    }
}

/// `r`, the new state and the rest of the buffer are what the parse step
/// `step` prescribes: on success the id is the meta's correlation id and the
/// body travels in the controller, so the returned body is empty.
pub open spec fn http_step_holds(
    step: HttpStep,
    r: Result<(u64, (RpcMeta, Controller, Bytes)), ProtocolError>,
    state: HttpStateModel,
    rest: Seq<u8>,
) -> bool {
    &&& state == step.1
    &&& rest == step.2
    &&& match step.0 {
        Err(e) => r == Err::<(u64, (RpcMeta, Controller, Bytes)), ProtocolError>(e),
        Ok((m, ctrl)) => r matches Ok((id, (meta, c, body))) && id == m.correlation_id && meta@ == m
            && c@ == ctrl && bytes_content(body) == Seq::<u8>::empty(),
    }
}

/// Plain http 1.x, with the progress of the request being read.
#[derive(Debug)]
pub struct HttpProtocol {
    state: HttpParseState,
}

fn build_header_map(headers: &Vec<RawHeader>) -> (r: Option<HeaderMap>)
    ensures
        ({
            let hs = headers@.map_values(|h: RawHeader| (h.name@, h.value@));
            if header_values_utf8(hs) {
                r matches Some(m) && m@ == header_map_of(hs)
            } else {
                r is None
            }
        }),
{
    let ghost hs = headers@.map_values(|h: RawHeader| (h.name@, h.value@));
    let mut map = HeaderMap::new();
    let mut i: usize = 0;
    while i < headers.len()
        invariant
            i <= headers@.len(),
            hs == headers@.map_values(|h: RawHeader| (h.name@, h.value@)),
            header_values_utf8(hs.subrange(0, i as int)),
            map@ == header_map_of(hs.subrange(0, i as int)),
        decreases headers@.len() - i,
    {
        let h = &headers[i];
        assert(hs[i as int] == (h.name@, h.value@));
        match utf8_str(h.value.as_slice()) {
            None => {
                assert(!header_values_utf8(hs)) by {
                    assert(!valid_utf8(hs[i as int].1));
                }
                return None;
            },
            Some(v) => {
                map.insert(h.name.clone(), v.to_owned());
                proof {
                    let sub = hs.subrange(0, i + 1);
                    assert(sub.drop_last() =~= hs.subrange(0, i as int));
                    assert(sub.last() == hs[i as int]);
                    assert forall|k: int| 0 <= k < sub.len() implies valid_utf8(#[trigger] sub[k].1) by {
                        if k < i {
                            assert(sub[k] == hs.subrange(0, i as int)[k]);
                        }
                    }
                }
            },
        }
        i = i + 1;
    }
    assert(hs.subrange(0, headers@.len() as int) =~= hs);
    Some(map)
}

fn header_number_of(map: &HeaderMap, name: &str, max: u64) -> (r: Option<u64>)
    ensures
        match header_number(header_lookup(map@, name@), max as nat) {
            None => r is None,
            Some(v) => r == Some(v as u64),
        },
{
    match map.get(name) {
        None => Some(0),
        Some(s) => parse_decimal(s.as_str(), max),
    }
}

impl HttpProtocol {
    /// The parse progress.
    pub closed spec fn parse_state(&self) -> HttpStateModel {
        self.state@
    }

    /// A parser at the start of a request.
    pub fn new() -> (r: Self)
        ensures
            r.parse_state() == HttpStateModel::ReadingHeader,
    {
        HttpProtocol { state: HttpParseState::ReadingHeader }
    }

    /// A copy of this parser, in the same state.
    pub fn new_boxed(&self) -> (r: Self)
        ensures
            r.parse_state() == self.parse_state(),
    {
        let state = match &self.state {
            HttpParseState::ReadingHeader => HttpParseState::ReadingHeader,
            HttpParseState::ReadingContent(h, c, m, ctrl) => HttpParseState::ReadingContent(
                *h,
                *c,
                m.clone(),
                ctrl.clone(),
            ),
        };
        HttpProtocol { state }
    }

    /// The protocol's name.
    pub fn name(&self) -> (r: &'static str)
        ensures
            r@ == "http"@,
    {
        "http"
    }

    /// Service and method name from a request target such as `/Echo/echo`:
    /// its first two non-empty segments.
    pub fn parse_name(&self, path: &str) -> (r: Result<(String, String), ProtocolError>)
        ensures
            match target_names(path@) {
                None => r == Err::<(String, String), ProtocolError>(ProtocolError::AbsolutelyWrong),
                Some((s, m)) => r matches Ok((x, y)) && x@ == s && y@ == m,
            },
    {
        match parse_name(path) {
            None => Err(ProtocolError::AbsolutelyWrong),
            Some(names) => Ok(names),
        }
    }

    /// The state that a request head, as httparse read it, leads to: the
    /// head's length, the body's length, the request meta and the
    /// controller; or why it leads nowhere (a partial head needs more
    /// bytes, a bad one is absolutely wrong).
    pub fn head_state(&self, head: HttpHead) -> (r: Result<HttpParseState, ProtocolError>)
        ensures
            match http_head_state(head@) {
                Err(e) => r == Err::<HttpParseState, ProtocolError>(e),
                Ok(st) => r matches Ok(x) && x@ == st && x is ReadingContent,
            },
    {
        match head {
            HttpHead::Partial => Err(ProtocolError::NeedMoreBytes),
            HttpHead::Invalid => Err(ProtocolError::AbsolutelyWrong),
            HttpHead::Complete { header_len, path, headers } => {
                let map = match build_header_map(&headers) {
                    None => {
                        return Err(ProtocolError::AbsolutelyWrong);
                    },
                    Some(m) => m,
                };
                let path = match path {
                    None => {
                        return Err(ProtocolError::AbsolutelyWrong);
                    },
                    Some(p) => p,
                };
                let id = match header_number_of(&map, "Correlation-Id", u64::MAX) {
                    None => {
                        return Err(ProtocolError::AbsolutelyWrong);
                    },
                    Some(v) => v,
                };
                let content_len = match header_number_of(&map, "Content-Length", usize::MAX as u64) {
                    None => {
                        return Err(ProtocolError::AbsolutelyWrong);
                    },
                    Some(v) => v as usize,
                };
                let (service, method) = match self.parse_name(path.as_str()) {
                    Err(e) => {
                        return Err(e);
                    },
                    Ok(names) => names,
                };
                let mut request_meta = RpcRequestMeta::new();
                request_meta.set_service_name(service);
                request_meta.set_method_name(method);
                let mut meta = RpcMeta::new();
                meta.set_request(request_meta);
                meta.set_correlation_id(id);
                let mut controller = Controller::default();
                controller.http_url = Some(path);
                controller.headers = map;
                Ok(HttpParseState::ReadingContent(header_len, content_len, meta, controller))
            },
        }
    }

    fn parse_content(
        &mut self,
        header_len: usize,
        content_len: usize,
        meta: RpcMeta,
        controller: Controller,
        buf: &mut BytesMut,
    ) -> (r: Result<(u64, (RpcMeta, Controller, Bytes)), ProtocolError>)
        ensures
            http_step_holds(
                http_content(header_len as nat, content_len as nat, meta@, controller@, buf_content(*old(buf))),
                r,
                final(self).parse_state(),
                buf_content(*final(buf)),
            ),
    {
        let len = buf_as_slice(buf).len();
        if header_len > len || len - header_len < content_len {
            self.state = HttpParseState::ReadingContent(header_len, content_len, meta, controller);
            return Err(ProtocolError::NeedMoreBytes);
        }
        let ghost before = buf_content(*buf);
        let _ = buf_split_to(buf, header_len);
        let body = buf_split_to(buf, content_len);
        let mut controller = controller;
        let b = buf_as_slice(&body);
        let mut request_body: Vec<u8> = Vec::new();
        crate::message::append_bytes(&mut request_body, b);
        controller.request_body = request_body;
        proof {
            assert(request_body@ =~= before.subrange(header_len as int, (header_len + content_len) as int));
            assert(buf_content(*buf) =~= before.skip((header_len + content_len) as int));
        }
        self.state = HttpParseState::ReadingHeader;
        Ok((meta.correlation_id, (meta, controller, bytes_empty())))
    }

    /// Cuts the next request out of `buf`, resuming where the previous call
    /// stopped. The request head gives the target (`/service/method`), the
    /// `Correlation-Id` and the `Content-Length`; the body follows the head
    /// and is handed over in the controller.
    pub fn try_parse(&mut self, buf: &mut BytesMut) -> (r: Result<
        (u64, (RpcMeta, Controller, Bytes)),
        ProtocolError,
    >)
        ensures
            http_step_holds(
                http_parse(old(self).parse_state(), buf_content(*old(buf))),
                r,
                final(self).parse_state(),
                buf_content(*final(buf)),
            ),
    {
        let mut state = HttpParseState::ReadingHeader;
        std::mem::swap(&mut state, &mut self.state);
        match state {
            HttpParseState::ReadingHeader => {
                let head = parse_request_head(buf_as_slice(buf), MAX_HEADERS);
                match self.head_state(head) {
                    Err(e) => Err(e),
                    Ok(HttpParseState::ReadingContent(h, c, meta, controller)) => {
                        self.parse_content(h, c, meta, controller, buf)
                    },
                    Ok(HttpParseState::ReadingHeader) => Err(ProtocolError::AbsolutelyWrong),
                }
            },
            HttpParseState::ReadingContent(h, c, meta, controller) => {
                self.parse_content(h, c, meta, controller, buf)
            },
        }
    }

    /// Appends the http response for `pkg` to `buf`: the status line, then,
    /// for `200 OK`, the controller's headers with a `Content-Length` added
    /// when absent, a blank line and the response body from the controller.
    /// Other statuses send the status line alone. The meta and the body in
    /// the package play no part.
    pub fn write_package(&self, pkg: (RpcMeta, Controller, Bytes), buf: &mut BytesMut)
        requires
            buf_content(*old(buf)).len() + http_response_bytes(pkg.1@).len() <= isize::MAX,
        ensures
            buf_content(*final(buf)) == buf_content(*old(buf)) + http_response_bytes(pkg.1@),
    {
        let (_meta, controller, _body) = pkg;
        let ghost ctrl = controller@;
        let ghost start = buf_content(*buf);
        let status = match controller.status {
            Some(s) => s,
            None => HttpStatus::OK,
        };
        let prefix: [u8; 9] = [72u8, 84u8, 84u8, 80u8, 47u8, 49u8, 46u8, 49u8, 32u8];
        let crlf: [u8; 2] = [13u8, 10u8];
        assert(prefix@ =~= http_version_prefix());
        assert(crlf@ =~= crlf_bytes());
        let ghost full = http_response_bytes(ctrl);
        let ghost sl = status_line_bytes(status);
        assert(full.len() >= sl.len()) by {
            lemma_response_starts_with_status(ctrl);
        }
        buf_extend(buf, &prefix);
        buf_extend(buf, status.to_status_line().as_bytes());
        buf_extend(buf, &crlf);
        assert(buf_content(*buf) =~= start + sl);
        match status {
            HttpStatus::OK => {
                let mut headers = controller.headers;
                let content_len = controller.response_body.len();
                if !headers.contains_key("Content-Length") {
                    headers.insert("Content-Length".to_string(), decimal_string(content_len));
                }
                let ghost hs = headers@;
                assert(hs == with_content_length(ctrl.headers, ctrl.response_body.len()));
                assert(full =~= sl + (header_lines(hs) + (crlf_bytes() + ctrl.response_body)));
                let n = headers.len();
                let mut i: usize = 0;
                while i < n
                    invariant
                        i <= n,
                        n == hs.len(),
                        headers@ == hs,
                        crlf@ == crlf_bytes(),
                        buf_content(*buf) == start + sl + header_lines(hs.subrange(0, i as int)),
                        start.len() + sl.len() + header_lines(hs).len() <= isize::MAX,
                    decreases n - i,
                {
                    let (k, v) = headers.entry_at(i);
                    proof {
                        lemma_header_lines_prefix(hs, i as nat + 1);
                        let sub = hs.subrange(0, i + 1);
                        assert(sub.drop_last() =~= hs.subrange(0, i as int));
                    }
                    buf_extend(buf, k.as_str().as_bytes());
                    let sep: [u8; 2] = [58u8, 32u8];
                    buf_extend(buf, &sep);
                    buf_extend(buf, v.as_str().as_bytes());
                    buf_extend(buf, &crlf);
                    proof {
                        let sub = hs.subrange(0, i + 1);
                        assert(sub.last() == hs[i as int]);
                        assert(k@ == hs[i as int].0 && v@ == hs[i as int].1);
                        assert(sep@ =~= seq![58u8, 32u8]);
                        assert(header_lines(sub) == header_lines(sub.drop_last()) + encode_utf8(
                            sub.last().0,
                        ) + seq![58u8, 32u8] + encode_utf8(sub.last().1) + crlf_bytes());
                        assert(buf_content(*buf) =~= start + sl + header_lines(sub));
                    }
                    i = i + 1;
                }
                assert(hs.subrange(0, n as int) =~= hs);
                buf_extend(buf, &crlf);
                buf_extend(buf, controller.response_body.as_slice());
                assert(buf_content(*buf) =~= start + full);
            },
            HttpStatus::Forbidden => {},
        }
    }
}

/// The bytes `HTTP/1.1 `.
pub open spec fn http_version_prefix() -> Seq<u8> {
    seq![72u8, 84u8, 84u8, 80u8, 47u8, 49u8, 46u8, 49u8, 32u8]
}

/// A line end.
pub open spec fn crlf_bytes() -> Seq<u8> {
    seq![13u8, 10u8]
}

/// The status line of a response with status `s`.
pub open spec fn status_line_bytes(s: HttpStatus) -> Seq<u8> {
    http_version_prefix() + encode_utf8(status_line_text(s)) + crlf_bytes()
}

/// The header lines `name: value`, one per entry, in order.
pub open spec fn header_lines(h: Seq<(Seq<char>, Seq<char>)>) -> Seq<u8>
    decreases h.len(),
{
    if h.len() == 0 {
        seq![]
    } else {
        header_lines(h.drop_last()) + encode_utf8(h.last().0) + seq![58u8, 32u8] + encode_utf8(
            h.last().1,
        ) + crlf_bytes()
    }
}

/// The headers with a `Content-Length` of `len` added when none is there.
pub open spec fn with_content_length(h: Seq<(Seq<char>, Seq<char>)>, len: nat) -> Seq<
    (Seq<char>, Seq<char>),
> {
    if has_key(h, "Content-Length"@) {
        h
    } else {
        header_insert(h, "Content-Length"@, decimal_digits(len))
    }
}

/// The http response that a controller describes.
pub open spec fn http_response_bytes(ctrl: ControllerModel) -> Seq<u8> {
    let status = match ctrl.status {
        Some(s) => s,
        None => HttpStatus::OK,
    };
    match status {
        HttpStatus::OK => status_line_bytes(status) + header_lines(
            with_content_length(ctrl.headers, ctrl.response_body.len()),
        ) + crlf_bytes() + ctrl.response_body,
        HttpStatus::Forbidden => status_line_bytes(status),
    }
}

proof fn lemma_response_starts_with_status(ctrl: ControllerModel)
    ensures
        http_response_bytes(ctrl).len() >= status_line_bytes(
            match ctrl.status {
                Some(s) => s,
                None => HttpStatus::OK,
            },
        ).len(),
{
}

proof fn lemma_header_lines_prefix(h: Seq<(Seq<char>, Seq<char>)>, i: nat)
    requires
        i <= h.len(),
    ensures
        header_lines(h.subrange(0, i as int)).len() <= header_lines(h).len(),
    decreases h.len() - i,
{
    if i < h.len() {
        lemma_header_lines_prefix(h, i + 1);
        let sub = h.subrange(0, i as int + 1);
        assert(sub.drop_last() =~= h.subrange(0, i as int));
    } else {
        assert(h.subrange(0, i as int) =~= h);
    }
}

} // verus!
