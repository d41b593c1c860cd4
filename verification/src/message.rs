//! RPC meta messages and their protobuf encoding.
//!
//! A request or response on the wire carries an `RpcMeta`: the request
//! target or the response status, and the id that pairs a response with its
//! request. The meta is encoded in the protobuf wire format (proto3 rules:
//! fields at their default value are left out, unknown fields are skipped).
//!
//! Field numbers: `RpcMeta { request = 1, response = 2, correlation_id = 4 }`,
//! `RpcRequestMeta { service_name = 1, method_name = 2 }`,
//! `RpcResponseMeta { error_code = 1, error_text = 2 }`.

use vstd::prelude::*;
use vstd::utf8::*;

use crate::text::utf8_str;
use crate::wire::{
    lemma_subrange_skip, push_varint, read_delimited_at, read_tag_at, read_varint_at,
    skip_unknown_at, lemma_read_delimited_bounds, lemma_read_tag_bounds, lemma_read_varint_bounds,
    lemma_skip_unknown_bounds, read_delimited64, read_delimited32, read_tag, read_varint,
    lemma_read_varint_bytes, skip_unknown, tag_bytes, varint_bytes, WIRE_DELIMITED, WIRE_VARINT,
};

verus! {

/// The target of a request: which method of which service.
#[derive(Debug, PartialEq, Eq, Default)]
pub struct RpcRequestMeta {
    /// Name of the service.
    pub service_name: String,
    /// Name of the method within the service.
    pub method_name: String,
}

/// The status of a response: zero for success, with a text otherwise.
#[derive(Debug, PartialEq, Eq, Default)]
pub struct RpcResponseMeta {
    /// Zero on success, otherwise the kind of failure.
    pub error_code: i32,
    /// Description of the failure.
    pub error_text: String,
}

/// The meta of a package: a request or a response part, and the id that
/// pairs a response with its request.
#[derive(Debug, PartialEq, Eq, Default)]
pub struct RpcMeta {
    /// Present in requests.
    pub request: Option<RpcRequestMeta>,
    /// Present in responses.
    pub response: Option<RpcResponseMeta>,
    /// Id that pairs a response with its request.
    pub correlation_id: u64,
}

/// Abstract value of an [`RpcRequestMeta`].
pub struct RequestMetaModel {
    pub service_name: Seq<char>,
    pub method_name: Seq<char>,
}

/// Abstract value of an [`RpcResponseMeta`].
pub struct ResponseMetaModel {
    pub error_code: i32,
    pub error_text: Seq<char>,
}

/// Abstract value of an [`RpcMeta`].
pub struct MetaModel {
    pub request: Option<RequestMetaModel>,
    pub response: Option<ResponseMetaModel>,
    pub correlation_id: u64,
}

impl View for RpcRequestMeta {
    type V = RequestMetaModel;

    open spec fn view(&self) -> RequestMetaModel {
        RequestMetaModel { service_name: self.service_name@, method_name: self.method_name@ }
    }
}

impl View for RpcResponseMeta {
    type V = ResponseMetaModel;

    open spec fn view(&self) -> ResponseMetaModel {
        ResponseMetaModel { error_code: self.error_code, error_text: self.error_text@ }
    }
}

impl View for RpcMeta {
    type V = MetaModel;

    open spec fn view(&self) -> MetaModel {
        MetaModel {
            request: match self.request {
                Some(r) => Some(r@),
                None => None,
            },
            response: match self.response {
                Some(r) => Some(r@),
                None => None,
            },
            correlation_id: self.correlation_id,
        }
    }
}

pub open spec fn default_request_meta() -> RequestMetaModel {
    RequestMetaModel { service_name: seq![], method_name: seq![] }
}

pub open spec fn default_response_meta() -> ResponseMetaModel {
    ResponseMetaModel { error_code: 0, error_text: seq![] }
}

pub open spec fn default_meta() -> MetaModel {
    MetaModel { request: None, response: None, correlation_id: 0 }
}

// ----- encoding -----

/// A payload preceded by its length.
pub open spec fn len_prefixed(b: Seq<u8>) -> Seq<u8> {
    varint_bytes(b.len() as u64) + b
}

/// A string field; left out when the string is empty.
pub open spec fn string_field_bytes(field: u32, s: Seq<char>) -> Seq<u8> {
    if s.len() == 0 {
        seq![]
    } else {
        tag_bytes(field, WIRE_DELIMITED) + len_prefixed(encode_utf8(s))
    }
}

/// An embedded message field.
pub open spec fn message_field_bytes(field: u32, body: Seq<u8>) -> Seq<u8> {
    tag_bytes(field, WIRE_DELIMITED) + len_prefixed(body)
}

/// A varint field; left out when the value is zero.
pub open spec fn varint_field_bytes(field: u32, v: u64) -> Seq<u8> {
    if v == 0 {
        seq![]
    } else {
        tag_bytes(field, WIRE_VARINT) + varint_bytes(v)
    }
}

/// The encoding of a request meta.
pub open spec fn request_meta_bytes(m: RequestMetaModel) -> Seq<u8> {
    string_field_bytes(1, m.service_name) + string_field_bytes(2, m.method_name)
}

/// The encoding of a response meta; a negative code is sign-extended to 64
/// bits, as protobuf does for `int32`.
pub open spec fn response_meta_bytes(m: ResponseMetaModel) -> Seq<u8> {
    varint_field_bytes(1, (m.error_code as i64) as u64) + string_field_bytes(2, m.error_text)
}

/// The encoding of a meta.
pub open spec fn meta_bytes(m: MetaModel) -> Seq<u8> {
    (match m.request {
        Some(r) => message_field_bytes(1, request_meta_bytes(r)),
        None => seq![],
    }) + (match m.response {
        Some(r) => message_field_bytes(2, response_meta_bytes(r)),
        None => seq![],
    }) + varint_field_bytes(4, m.correlation_id)
}

/// The encoding fits the 32-bit sizes of the protobuf runtime.
pub open spec fn meta_fits(m: MetaModel) -> bool {
    meta_bytes(m).len() <= u32::MAX
}

// ----- decoding -----

/// A string payload: its characters and the bytes read; `None` when cut
/// short or not UTF-8.
pub open spec fn read_string_field(s: Seq<u8>) -> Option<(Seq<char>, nat)> {
    match read_delimited32(s) {
        None => None,
        Some((p, n)) => if valid_utf8(p) {
            Some((decode_utf8(p), n))
        } else {
            None
        },
    }
}

/// Reads the fields of a request meta from `s` over `acc`: a later field
/// replaces an earlier one.
pub open spec fn merge_request_meta(acc: RequestMetaModel, s: Seq<u8>) -> Option<RequestMetaModel>
    decreases s.len(),
{
    if s.len() == 0 {
        Some(acc)
    } else {
        match read_tag(s) {
            None => None,
            Some((field, wire, n)) => {
                proof {
                    lemma_read_tag_bounds(s);
                }
                let t = s.skip(n as int);
                if field == 1 || field == 2 {
                    if wire != WIRE_DELIMITED {
                        None
                    } else {
                        match read_string_field(t) {
                            None => None,
                            Some((v, m)) => {
                                proof {
                                    lemma_read_delimited_bounds(t);
                                }
                                let next = if field == 1 {
                                    RequestMetaModel { service_name: v, method_name: acc.method_name }
                                } else {
                                    RequestMetaModel { service_name: acc.service_name, method_name: v }
                                };
                                merge_request_meta(next, t.skip(m as int))
                            },
                        }
                    }
                } else {
                    match skip_unknown(wire, t) {
                        None => None,
                        Some(m) => {
                            proof {
                                lemma_skip_unknown_bounds(wire, t);
                            }
                            merge_request_meta(acc, t.skip(m as int))
                        },
                    }
                }
            },
        }
    }
}

/// Reads the fields of a response meta from `s` over `acc`.
pub open spec fn merge_response_meta(acc: ResponseMetaModel, s: Seq<u8>) -> Option<ResponseMetaModel>
    decreases s.len(),
{
    if s.len() == 0 {
        Some(acc)
    } else {
        match read_tag(s) {
            None => None,
            Some((field, wire, n)) => {
                proof {
                    lemma_read_tag_bounds(s);
                }
                let t = s.skip(n as int);
                if field == 1 {
                    if wire != WIRE_VARINT {
                        None
                    } else {
                        match read_varint(t) {
                            None => None,
                            Some((v, m)) => {
                                proof {
                                    lemma_read_varint_bounds(t);
                                }
                                merge_response_meta(
                                    ResponseMetaModel {
                                        error_code: (v as u32) as i32,
                                        error_text: acc.error_text,
                                    },
                                    t.skip(m as int),
                                )
                            },
                        }
                    }
                } else if field == 2 {
                    if wire != WIRE_DELIMITED {
                        None
                    } else {
                        match read_string_field(t) {
                            None => None,
                            Some((v, m)) => {
                                proof {
                                    lemma_read_delimited_bounds(t);
                                }
                                merge_response_meta(
                                    ResponseMetaModel { error_code: acc.error_code, error_text: v },
                                    t.skip(m as int),
                                )
                            },
                        }
                    }
                } else {
                    match skip_unknown(wire, t) {
                        None => None,
                        Some(m) => {
                            proof {
                                lemma_skip_unknown_bounds(wire, t);
                            }
                            merge_response_meta(acc, t.skip(m as int))
                        },
                    }
                }
            },
        }
    }
}

/// Reads the fields of a meta from `s` over `acc`: a repeated embedded
/// message merges into the one read before, as protobuf does.
pub open spec fn merge_meta(acc: MetaModel, s: Seq<u8>) -> Option<MetaModel>
    decreases s.len(),
{
    if s.len() == 0 {
        Some(acc)
    } else {
        match read_tag(s) {
            None => None,
            Some((field, wire, n)) => {
                proof {
                    lemma_read_tag_bounds(s);
                }
                let t = s.skip(n as int);
                if field == 1 || field == 2 {
                    if wire != WIRE_DELIMITED {
                        None
                    } else {
                        match read_delimited64(t) {
                            None => None,
                            Some((p, m)) => {
                                proof {
                                    lemma_read_delimited_bounds(t);
                                }
                                if field == 1 {
                                    let base = match acc.request {
                                        Some(r) => r,
                                        None => default_request_meta(),
                                    };
                                    match merge_request_meta(base, p) {
                                        None => None,
                                        Some(r) => merge_meta(
                                            MetaModel {
                                                request: Some(r),
                                                response: acc.response,
                                                correlation_id: acc.correlation_id,
                                            },
                                            t.skip(m as int),
                                        ),
                                    }
                                } else {
                                    let base = match acc.response {
                                        Some(r) => r,
                                        None => default_response_meta(),
                                    };
                                    match merge_response_meta(base, p) {
                                        None => None,
                                        Some(r) => merge_meta(
                                            MetaModel {
                                                request: acc.request,
                                                response: Some(r),
                                                correlation_id: acc.correlation_id,
                                            },
                                            t.skip(m as int),
                                        ),
                                    }
                                }
                            },
                        }
                    }
                } else if field == 4 {
                    if wire != WIRE_VARINT {
                        None
                    } else {
                        match read_varint(t) {
                            None => None,
                            Some((v, m)) => {
                                proof {
                                    lemma_read_varint_bounds(t);
                                }
                                merge_meta(
                                    MetaModel {
                                        request: acc.request,
                                        response: acc.response,
                                        correlation_id: v,
                                    },
                                    t.skip(m as int),
                                )
                            },
                        }
                    }
                } else {
                    match skip_unknown(wire, t) {
                        None => None,
                        Some(m) => {
                            proof {
                                lemma_skip_unknown_bounds(wire, t);
                            }
                            merge_meta(acc, t.skip(m as int))
                        },
                    }
                }
            },
        }
    }
}

/// The meta that `s` encodes, or `None` when `s` is not a valid encoding.
pub open spec fn parse_meta(s: Seq<u8>) -> Option<MetaModel> {
    merge_meta(default_meta(), s)
}


// ----- the encoding reads back -----

pub(crate) proof fn lemma_read_tag_of(field: u32, wire: u32, rest: Seq<u8>)
    requires
        1 <= field < 0x2000_0000,
        wire <= 5,
    ensures
        read_tag(tag_bytes(field, wire) + rest) == Some((field, wire, tag_bytes(field, wire).len())),
{
    let v = ((field as u64) << 3u64) | (wire as u64);
    lemma_read_varint_bytes(v, rest);
    assert((v as u32) & 7 == wire && (v as u32) >> 3u32 == field) by (bit_vector)
        requires
            v == ((field as u64) << 3u64) | (wire as u64),
            1 <= field < 0x2000_0000,
            wire <= 5,
    ;
}

proof fn lemma_read_delimited_of(b: Seq<u8>, rest: Seq<u8>)
    requires
        b.len() <= u32::MAX,
    ensures
        read_delimited32(len_prefixed(b) + rest) == Some((b, len_prefixed(b).len())),
        read_delimited64(len_prefixed(b) + rest) == Some((b, len_prefixed(b).len())),
{
    let v = b.len() as u64;
    let s = len_prefixed(b) + rest;
    assert(s =~= varint_bytes(v) + (b + rest));
    lemma_read_varint_bytes(v, b + rest);
    let n = varint_bytes(v).len();
    assert((v as u32) as u64 == v) by (bit_vector)
        requires
            v <= 0xffff_ffff,
    ;
    assert(s.subrange(n as int, (n + b.len()) as int) =~= b);
}

pub(crate) proof fn lemma_read_string_field_of(v: Seq<char>, rest: Seq<u8>)
    requires
        encode_utf8(v).len() <= u32::MAX,
    ensures
        read_string_field(len_prefixed(encode_utf8(v)) + rest) == Some((v, len_prefixed(encode_utf8(v)).len())),
{
    broadcast use encode_utf8_valid_utf8, encode_utf8_decode_utf8;

    lemma_read_delimited_of(encode_utf8(v), rest);
}

pub(crate) proof fn lemma_encode_utf8_empty(v: Seq<char>)
    ensures
        (encode_utf8(v).len() == 0) == (v.len() == 0),
{
    if v.len() > 0 {
        let c = v[0] as u32;
        assert(encode_scalar(c).len() > 0);
    }
}

proof fn lemma_merge_request_string(acc: RequestMetaModel, field: u32, v: Seq<char>, rest: Seq<u8>)
    requires
        field == 1 || field == 2,
        v.len() > 0,
        encode_utf8(v).len() <= u32::MAX,
    ensures
        merge_request_meta(acc, string_field_bytes(field, v) + rest) == merge_request_meta(
            if field == 1 {
                RequestMetaModel { service_name: v, method_name: acc.method_name }
            } else {
                RequestMetaModel { service_name: acc.service_name, method_name: v }
            },
            rest,
        ),
{
    let tag = tag_bytes(field, WIRE_DELIMITED);
    let body = len_prefixed(encode_utf8(v));
    let s = string_field_bytes(field, v) + rest;
    assert(s =~= tag + (body + rest));
    lemma_read_tag_of(field, WIRE_DELIMITED, body + rest);
    let n = tag.len();
    assert(s.skip(n as int) =~= body + rest);
    lemma_read_string_field_of(v, rest);
    assert((body + rest).skip(body.len() as int) =~= rest);
}

proof fn lemma_merge_response_string(acc: ResponseMetaModel, v: Seq<char>, rest: Seq<u8>)
    requires
        v.len() > 0,
        encode_utf8(v).len() <= u32::MAX,
    ensures
        merge_response_meta(acc, string_field_bytes(2, v) + rest) == merge_response_meta(
            ResponseMetaModel { error_code: acc.error_code, error_text: v },
            rest,
        ),
{
    let tag = tag_bytes(2, WIRE_DELIMITED);
    let body = len_prefixed(encode_utf8(v));
    let s = string_field_bytes(2, v) + rest;
    assert(s =~= tag + (body + rest));
    lemma_read_tag_of(2, WIRE_DELIMITED, body + rest);
    assert(s.skip(tag.len() as int) =~= body + rest);
    lemma_read_string_field_of(v, rest);
    assert((body + rest).skip(body.len() as int) =~= rest);
}

proof fn lemma_merge_response_code(acc: ResponseMetaModel, code: i32, rest: Seq<u8>)
    requires
        code != 0,
    ensures
        merge_response_meta(acc, varint_field_bytes(1, (code as i64) as u64) + rest)
            == merge_response_meta(
            ResponseMetaModel { error_code: code, error_text: acc.error_text },
            rest,
        ),
{
    let v = (code as i64) as u64;
    assert(v != 0 && ((v as u32) as i32) == code) by (bit_vector)
        requires
            v == (code as i64) as u64,
            code != 0,
    ;
    let tag = tag_bytes(1, WIRE_VARINT);
    let s = varint_field_bytes(1, v) + rest;
    assert(s =~= tag + (varint_bytes(v) + rest));
    lemma_read_tag_of(1, WIRE_VARINT, varint_bytes(v) + rest);
    assert(s.skip(tag.len() as int) =~= varint_bytes(v) + rest);
    lemma_read_varint_bytes(v, rest);
    assert((varint_bytes(v) + rest).skip(varint_bytes(v).len() as int) =~= rest);
}

/// A request meta reads back from its encoding.
pub proof fn lemma_request_meta_roundtrip(r: RequestMetaModel)
    requires
        request_meta_bytes(r).len() <= u32::MAX,
    ensures
        merge_request_meta(default_request_meta(), request_meta_bytes(r)) == Some(r),
{
    let a = string_field_bytes(1, r.service_name);
    let b = string_field_bytes(2, r.method_name);
    lemma_encode_utf8_empty(r.service_name);
    lemma_encode_utf8_empty(r.method_name);
    let empty: Seq<u8> = seq![];
    let mid = RequestMetaModel { service_name: r.service_name, method_name: seq![] };
    assert(request_meta_bytes(r) =~= a + (b + empty));
    if r.service_name.len() > 0 {
        lemma_merge_request_string(default_request_meta(), 1, r.service_name, b + empty);
    } else {
        assert(a + (b + empty) =~= b + empty);
        assert(r.service_name =~= seq![]);
        assert(default_request_meta() == mid);
    }
    if r.method_name.len() > 0 {
        lemma_merge_request_string(mid, 2, r.method_name, empty);
    } else {
        assert(b + empty =~= empty);
        assert(r.method_name =~= seq![]);
    }
    assert(r == RequestMetaModel { service_name: r.service_name, method_name: r.method_name });
}

/// A response meta reads back from its encoding.
pub proof fn lemma_response_meta_roundtrip(r: ResponseMetaModel)
    requires
        response_meta_bytes(r).len() <= u32::MAX,
    ensures
        merge_response_meta(default_response_meta(), response_meta_bytes(r)) == Some(r),
{
    let a = varint_field_bytes(1, (r.error_code as i64) as u64);
    let b = string_field_bytes(2, r.error_text);
    lemma_encode_utf8_empty(r.error_text);
    let code = r.error_code;
    assert((code == 0) == (((code as i64) as u64) == 0)) by (bit_vector);
    let empty: Seq<u8> = seq![];
    let mid = ResponseMetaModel { error_code: r.error_code, error_text: seq![] };
    assert(response_meta_bytes(r) =~= a + (b + empty));
    if r.error_code != 0 {
        lemma_merge_response_code(default_response_meta(), r.error_code, b + empty);
    } else {
        assert(a + (b + empty) =~= b + empty);
    }
    if r.error_text.len() > 0 {
        lemma_merge_response_string(mid, r.error_text, empty);
    } else {
        assert(b + empty =~= empty);
        assert(r.error_text =~= seq![]);
    }
    assert(r == ResponseMetaModel { error_code: r.error_code, error_text: r.error_text });
}

proof fn lemma_merge_meta_message(acc: MetaModel, field: u32, body: Seq<u8>, rest: Seq<u8>)
    requires
        field == 1 || field == 2,
        body.len() <= u32::MAX,
    ensures
        merge_meta(acc, message_field_bytes(field, body) + rest) == (if field == 1 {
            match merge_request_meta(
                match acc.request {
                    Some(r) => r,
                    None => default_request_meta(),
                },
                body,
            ) {
                None => None,
                Some(r) => merge_meta(
                    MetaModel { request: Some(r), response: acc.response, correlation_id: acc.correlation_id },
                    rest,
                ),
            }
        } else {
            match merge_response_meta(
                match acc.response {
                    Some(r) => r,
                    None => default_response_meta(),
                },
                body,
            ) {
                None => None,
                Some(r) => merge_meta(
                    MetaModel { request: acc.request, response: Some(r), correlation_id: acc.correlation_id },
                    rest,
                ),
            }
        }),
{
    let tag = tag_bytes(field, WIRE_DELIMITED);
    let lp = len_prefixed(body);
    let s = message_field_bytes(field, body) + rest;
    assert(s =~= tag + (lp + rest));
    lemma_read_tag_of(field, WIRE_DELIMITED, lp + rest);
    assert(s.skip(tag.len() as int) =~= lp + rest);
    lemma_read_delimited_of(body, rest);
    assert((lp + rest).skip(lp.len() as int) =~= rest);
}

proof fn lemma_merge_meta_id(acc: MetaModel, id: u64, rest: Seq<u8>)
    requires
        id != 0,
    ensures
        merge_meta(acc, varint_field_bytes(4, id) + rest) == merge_meta(
            MetaModel { request: acc.request, response: acc.response, correlation_id: id },
            rest,
        ),
{
    let tag = tag_bytes(4, WIRE_VARINT);
    let s = varint_field_bytes(4, id) + rest;
    assert(s =~= tag + (varint_bytes(id) + rest));
    lemma_read_tag_of(4, WIRE_VARINT, varint_bytes(id) + rest);
    assert(s.skip(tag.len() as int) =~= varint_bytes(id) + rest);
    lemma_read_varint_bytes(id, rest);
    assert((varint_bytes(id) + rest).skip(varint_bytes(id).len() as int) =~= rest);
}

/// Reading the encoding of a meta gives the meta back.
pub proof fn lemma_meta_roundtrip(m: MetaModel)
    requires
        meta_fits(m),
    ensures
        parse_meta(meta_bytes(m)) == Some(m),
{
    let a = match m.request {
        Some(r) => message_field_bytes(1, request_meta_bytes(r)),
        None => seq![],
    };
    let b = match m.response {
        Some(r) => message_field_bytes(2, response_meta_bytes(r)),
        None => seq![],
    };
    let c = varint_field_bytes(4, m.correlation_id);
    let empty: Seq<u8> = seq![];
    assert(meta_bytes(m) =~= a + (b + (c + empty)));
    let m1 = MetaModel { request: m.request, response: None, correlation_id: 0 };
    let m2 = MetaModel { request: m.request, response: m.response, correlation_id: 0 };
    match m.request {
        Some(r) => {
            lemma_request_meta_roundtrip(r);
            lemma_merge_meta_message(default_meta(), 1, request_meta_bytes(r), b + (c + empty));
        },
        None => {
            assert(a + (b + (c + empty)) =~= b + (c + empty));
        },
    }
    match m.response {
        Some(r) => {
            lemma_response_meta_roundtrip(r);
            lemma_merge_meta_message(m1, 2, response_meta_bytes(r), c + empty);
        },
        None => {
            assert(b + (c + empty) =~= c + empty);
        },
    }
    if m.correlation_id != 0 {
        lemma_merge_meta_id(m2, m.correlation_id, empty);
    } else {
        assert(c + empty =~= empty);
    }
}


impl Clone for RpcRequestMeta {
    fn clone(&self) -> (r: Self)
        ensures
            r@ == self@,
    {
        RpcRequestMeta { service_name: self.service_name.clone(), method_name: self.method_name.clone() }
    }
}

impl Clone for RpcResponseMeta {
    fn clone(&self) -> (r: Self)
        ensures
            r@ == self@,
    {
        RpcResponseMeta { error_code: self.error_code, error_text: self.error_text.clone() }
    }
}

impl Clone for RpcMeta {
    fn clone(&self) -> (r: Self)
        ensures
            r@ == self@,
    {
        RpcMeta {
            request: match &self.request {
                Some(q) => Some(q.clone()),
                None => None,
            },
            response: match &self.response {
                Some(q) => Some(q.clone()),
                None => None,
            },
            correlation_id: self.correlation_id,
        }
    }
}

// ----- executable encoding -----

/// Appends `b` to `out`.
pub fn append_bytes(out: &mut Vec<u8>, b: &[u8])
    ensures
        final(out)@ == old(out)@ + b@,
{
    let mut i: usize = 0;
    while i < b.len()
        invariant
            i <= b@.len(),
            out@ == old(out)@ + b@.subrange(0, i as int),
        decreases b@.len() - i,
    {
        out.push(b[i]);
        i = i + 1;
        assert(out@ =~= old(out)@ + b@.subrange(0, i as int));
    }
    assert(b@.subrange(0, b@.len() as int) =~= b@);
}

pub(crate) fn push_tag(out: &mut Vec<u8>, field: u32, wire: u32)
    ensures
        final(out)@ == old(out)@ + tag_bytes(field, wire),
{
    push_varint(out, ((field as u64) << 3u64) | (wire as u64));
}

pub(crate) fn push_string_field(out: &mut Vec<u8>, field: u32, s: &String)
    ensures
        final(out)@ == old(out)@ + string_field_bytes(field, s@),
{
    let b = s.as_str().as_bytes();
    proof {
        lemma_encode_utf8_empty(s@);
    }
    if b.len() == 0 {
        assert(out@ =~= old(out)@ + string_field_bytes(field, s@));
        return;
    }
    push_tag(out, field, WIRE_DELIMITED);
    push_varint(out, b.len() as u64);
    append_bytes(out, b);
    assert(out@ =~= old(out)@ + string_field_bytes(field, s@));
}

pub(crate) fn push_varint_field(out: &mut Vec<u8>, field: u32, v: u64)
    ensures
        final(out)@ == old(out)@ + varint_field_bytes(field, v),
{
    if v == 0 {
        assert(out@ =~= old(out)@ + varint_field_bytes(field, v));
        return;
    }
    push_tag(out, field, WIRE_VARINT);
    push_varint(out, v);
    assert(out@ =~= old(out)@ + varint_field_bytes(field, v));
}

fn push_message_field(out: &mut Vec<u8>, field: u32, body: &[u8])
    ensures
        final(out)@ == old(out)@ + message_field_bytes(field, body@),
{
    push_tag(out, field, WIRE_DELIMITED);
    push_varint(out, body.len() as u64);
    append_bytes(out, body);
    assert(out@ =~= old(out)@ + message_field_bytes(field, body@));
}

impl RpcRequestMeta {
    /// A request meta with empty names.
    pub fn new() -> (r: Self)
        ensures
            r@ == default_request_meta(),
    {
        RpcRequestMeta { service_name: String::new(), method_name: String::new() }
    }

    /// Sets the service name.
    pub fn set_service_name(&mut self, v: String)
        ensures
            final(self)@ == (RequestMetaModel { service_name: v@, method_name: old(self)@.method_name }),
    {
        self.service_name = v;
    }

    /// Sets the method name.
    pub fn set_method_name(&mut self, v: String)
        ensures
            final(self)@ == (RequestMetaModel { service_name: old(self)@.service_name, method_name: v@ }),
    {
        self.method_name = v;
    }

    /// The service name.
    pub fn get_service_name(&self) -> (r: &str)
        ensures
            r@ == self.service_name@,
    {
        self.service_name.as_str()
    }

    /// The method name.
    pub fn get_method_name(&self) -> (r: &str)
        ensures
            r@ == self.method_name@,
    {
        self.method_name.as_str()
    }

    /// Appends the encoding of this meta to `out`.
    pub fn write_to(&self, out: &mut Vec<u8>)
        ensures
            final(out)@ == old(out)@ + request_meta_bytes(self@),
    {
        push_string_field(out, 1, &self.service_name);
        push_string_field(out, 2, &self.method_name);
        assert(out@ =~= old(out)@ + request_meta_bytes(self@));
    }
}

impl RpcResponseMeta {
    /// A response meta with code zero and no text.
    pub fn new() -> (r: Self)
        ensures
            r@ == default_response_meta(),
    {
        RpcResponseMeta { error_code: 0, error_text: String::new() }
    }

    /// Sets the error code.
    pub fn set_error_code(&mut self, v: i32)
        ensures
            final(self)@ == (ResponseMetaModel { error_code: v, error_text: old(self)@.error_text }),
    {
        self.error_code = v;
    }

    /// Sets the error text.
    pub fn set_error_text(&mut self, v: String)
        ensures
            final(self)@ == (ResponseMetaModel { error_code: old(self)@.error_code, error_text: v@ }),
    {
        self.error_text = v;
    }

    /// The error code.
    pub fn get_error_code(&self) -> (r: i32)
        ensures
            r == self.error_code,
    {
        self.error_code
    }

    /// Appends the encoding of this meta to `out`.
    pub fn write_to(&self, out: &mut Vec<u8>)
        ensures
            final(out)@ == old(out)@ + response_meta_bytes(self@),
    {
        push_varint_field(out, 1, (self.error_code as i64) as u64);
        push_string_field(out, 2, &self.error_text);
        assert(out@ =~= old(out)@ + response_meta_bytes(self@));
    }
}

impl RpcMeta {
    /// A meta with neither part and id zero.
    pub fn new() -> (r: Self)
        ensures
            r@ == default_meta(),
    {
        RpcMeta { request: None, response: None, correlation_id: 0 }
    }

    /// Sets the request part.
    pub fn set_request(&mut self, v: RpcRequestMeta)
        ensures
            final(self)@ == (MetaModel {
                request: Some(v@),
                response: old(self)@.response,
                correlation_id: old(self)@.correlation_id,
            }),
    {
        self.request = Some(v);
    }

    /// Sets the response part.
    pub fn set_response(&mut self, v: RpcResponseMeta)
        ensures
            final(self)@ == (MetaModel {
                request: old(self)@.request,
                response: Some(v@),
                correlation_id: old(self)@.correlation_id,
            }),
    {
        self.response = Some(v);
    }

    /// Sets the correlation id.
    pub fn set_correlation_id(&mut self, v: u64)
        ensures
            final(self)@ == (MetaModel {
                request: old(self)@.request,
                response: old(self)@.response,
                correlation_id: v,
            }),
    {
        self.correlation_id = v;
    }

    /// The correlation id.
    pub fn get_correlation_id(&self) -> (r: u64)
        ensures
            r == self.correlation_id,
    {
        self.correlation_id
    }

    /// True when the request part is present.
    pub fn has_request(&self) -> (r: bool)
        ensures
            r == self.request is Some,
    {
        self.request.is_some()
    }

    /// True when the response part is present.
    pub fn has_response(&self) -> (r: bool)
        ensures
            r == self.response is Some,
    {
        self.response.is_some()
    }

    /// Takes the request part out, leaving none; an absent part reads as the
    /// default request meta.
    pub fn take_request(&mut self) -> (r: RpcRequestMeta)
        ensures
            r@ == match old(self)@.request {
                Some(q) => q,
                None => default_request_meta(),
            },
            final(self)@ == (MetaModel {
                request: None,
                response: old(self)@.response,
                correlation_id: old(self)@.correlation_id,
            }),
    {
        match self.request.take() {
            Some(q) => q,
            None => RpcRequestMeta::new(),
        }
    }

    /// Takes the response part out, leaving none; an absent part reads as the
    /// default response meta.
    pub fn take_response(&mut self) -> (r: RpcResponseMeta)
        ensures
            r@ == match old(self)@.response {
                Some(q) => q,
                None => default_response_meta(),
            },
            final(self)@ == (MetaModel {
                request: old(self)@.request,
                response: None,
                correlation_id: old(self)@.correlation_id,
            }),
    {
        match self.response.take() {
            Some(q) => q,
            None => RpcResponseMeta::new(),
        }
    }

    /// The encoding of this meta.
    pub fn write_to_bytes(&self) -> (r: Vec<u8>)
        ensures
            r@ == meta_bytes(self@),
    {
        let mut out: Vec<u8> = Vec::new();
        match &self.request {
            Some(q) => {
                let mut body: Vec<u8> = Vec::new();
                q.write_to(&mut body);
                push_message_field(&mut out, 1, body.as_slice());
            },
            None => {},
        }
        let ghost a = out@;
        match &self.response {
            Some(q) => {
                let mut body: Vec<u8> = Vec::new();
                q.write_to(&mut body);
                push_message_field(&mut out, 2, body.as_slice());
            },
            None => {},
        }
        push_varint_field(&mut out, 4, self.correlation_id);
        assert(out@ =~= meta_bytes(self@));
        out
    }

    /// Reads a meta from its encoding, or `None` when `buf` is not a valid
    /// encoding of one.
    pub fn parse_from_bytes(buf: &[u8]) -> (r: Option<RpcMeta>)
        ensures
            match parse_meta(buf@) {
                None => r is None,
                Some(m) => r matches Some(x) && x@ == m,
            },
    {
        assert(buf@.subrange(0, buf@.len() as int) =~= buf@);
        merge_meta_at(buf, 0, buf.len(), RpcMeta::new())
    }
}

pub(crate) fn read_string_at(buf: &[u8], pos: usize, end: usize) -> (r: Option<(String, usize)>)
    requires
        pos <= end <= buf@.len(),
    ensures
        match read_string_field(buf@.subrange(pos as int, end as int)) {
            None => r is None,
            Some((v, n)) => r matches Some((x, k)) && x@ == v && k == n,
        },
{
    match read_delimited_at(buf, pos, end, false) {
        None => None,
        Some((a, b)) => match utf8_str(&buf[a..b]) {
            None => None,
            Some(s) => Some((s.to_owned(), b - pos)),
        },
    }
}

fn merge_request_meta_at(buf: &[u8], start: usize, end: usize, acc0: RpcRequestMeta) -> (r: Option<
    RpcRequestMeta,
>)
    requires
        start <= end <= buf@.len(),
    ensures
        match merge_request_meta(acc0@, buf@.subrange(start as int, end as int)) {
            None => r is None,
            Some(m) => r matches Some(x) && x@ == m,
        },
{
    let mut acc = acc0;
    let mut cur = start;
    loop
        invariant
            start <= cur <= end <= buf@.len(),
            merge_request_meta(acc@, buf@.subrange(cur as int, end as int)) == merge_request_meta(
                acc0@,
                buf@.subrange(start as int, end as int),
            ),
        decreases end - cur,
    {
        let ghost s = buf@.subrange(cur as int, end as int);
        if cur == end {
            return Some(acc);
        }
        proof {
            lemma_read_tag_bounds(s);
        }
        match read_tag_at(buf, cur, end) {
            None => {
                return None;
            },
            Some((field, wire, n)) => {
                let p = cur + n;
                proof {
                    lemma_subrange_skip(buf@, cur as int, end as int, n as int);
                }
                let ghost t = s.skip(n as int);
                if field == 1 || field == 2 {
                    if wire != WIRE_DELIMITED {
                        return None;
                    }
                    proof {
                        lemma_read_delimited_bounds(t);
                    }
                    match read_string_at(buf, p, end) {
                        None => {
                            return None;
                        },
                        Some((v, m)) => {
                            if field == 1 {
                                acc.service_name = v;
                            } else {
                                acc.method_name = v;
                            }
                            proof {
                                lemma_subrange_skip(buf@, p as int, end as int, m as int);
                            }
                            cur = p + m;
                        },
                    }
                } else {
                    proof {
                        lemma_skip_unknown_bounds(wire, t);
                    }
                    match skip_unknown_at(wire, buf, p, end) {
                        None => {
                            return None;
                        },
                        Some(m) => {
                            proof {
                                lemma_subrange_skip(buf@, p as int, end as int, m as int);
                            }
                            cur = p + m;
                        },
                    }
                }
            },
        }
    }
}

fn merge_response_meta_at(buf: &[u8], start: usize, end: usize, acc0: RpcResponseMeta) -> (r: Option<
    RpcResponseMeta,
>)
    requires
        start <= end <= buf@.len(),
    ensures
        match merge_response_meta(acc0@, buf@.subrange(start as int, end as int)) {
            None => r is None,
            Some(m) => r matches Some(x) && x@ == m,
        },
{
    let mut acc = acc0;
    let mut cur = start;
    loop
        invariant
            start <= cur <= end <= buf@.len(),
            merge_response_meta(acc@, buf@.subrange(cur as int, end as int)) == merge_response_meta(
                acc0@,
                buf@.subrange(start as int, end as int),
            ),
        decreases end - cur,
    {
        let ghost s = buf@.subrange(cur as int, end as int);
        if cur == end {
            return Some(acc);
        }
        proof {
            lemma_read_tag_bounds(s);
        }
        match read_tag_at(buf, cur, end) {
            None => {
                return None;
            },
            Some((field, wire, n)) => {
                let p = cur + n;
                proof {
                    lemma_subrange_skip(buf@, cur as int, end as int, n as int);
                }
                let ghost t = s.skip(n as int);
                if field == 1 {
                    if wire != WIRE_VARINT {
                        return None;
                    }
                    proof {
                        lemma_read_varint_bounds(t);
                    }
                    match read_varint_at(buf, p, end) {
                        None => {
                            return None;
                        },
                        Some((v, m)) => {
                            acc.error_code = (v as u32) as i32;
                            proof {
                                lemma_subrange_skip(buf@, p as int, end as int, m as int);
                            }
                            cur = p + m;
                        },
                    }
                } else if field == 2 {
                    if wire != WIRE_DELIMITED {
                        return None;
                    }
                    proof {
                        lemma_read_delimited_bounds(t);
                    }
                    match read_string_at(buf, p, end) {
                        None => {
                            return None;
                        },
                        Some((v, m)) => {
                            acc.error_text = v;
                            proof {
                                lemma_subrange_skip(buf@, p as int, end as int, m as int);
                            }
                            cur = p + m;
                        },
                    }
                } else {
                    proof {
                        lemma_skip_unknown_bounds(wire, t);
                    }
                    match skip_unknown_at(wire, buf, p, end) {
                        None => {
                            return None;
                        },
                        Some(m) => {
                            proof {
                                lemma_subrange_skip(buf@, p as int, end as int, m as int);
                            }
                            cur = p + m;
                        },
                    }
                }
            },
        }
    }
}

fn merge_meta_at(buf: &[u8], start: usize, end: usize, acc0: RpcMeta) -> (r: Option<RpcMeta>)
    requires
        start <= end <= buf@.len(),
    ensures
        match merge_meta(acc0@, buf@.subrange(start as int, end as int)) {
            None => r is None,
            Some(m) => r matches Some(x) && x@ == m,
        },
{
    let mut acc = acc0;
    let mut cur = start;
    loop
        invariant
            start <= cur <= end <= buf@.len(),
            merge_meta(acc@, buf@.subrange(cur as int, end as int)) == merge_meta(
                acc0@,
                buf@.subrange(start as int, end as int),
            ),
        decreases end - cur,
    {
        let ghost s = buf@.subrange(cur as int, end as int);
        if cur == end {
            return Some(acc);
        }
        proof {
            lemma_read_tag_bounds(s);
        }
        match read_tag_at(buf, cur, end) {
            None => {
                return None;
            },
            Some((field, wire, n)) => {
                let p = cur + n;
                proof {
                    lemma_subrange_skip(buf@, cur as int, end as int, n as int);
                }
                let ghost t = s.skip(n as int);
                if field == 1 || field == 2 {
                    if wire != WIRE_DELIMITED {
                        return None;
                    }
                    proof {
                        lemma_read_delimited_bounds(t);
                    }
                    match read_delimited_at(buf, p, end, true) {
                        None => {
                            return None;
                        },
                        Some((a, b)) => {
                            if field == 1 {
                                let base = match acc.request.take() {
                                    Some(q) => q,
                                    None => RpcRequestMeta::new(),
                                };
                                match merge_request_meta_at(buf, a, b, base) {
                                    None => {
                                        return None;
                                    },
                                    Some(q) => {
                                        acc.request = Some(q);
                                    },
                                }
                            } else {
                                let base = match acc.response.take() {
                                    Some(q) => q,
                                    None => RpcResponseMeta::new(),
                                };
                                match merge_response_meta_at(buf, a, b, base) {
                                    None => {
                                        return None;
                                    },
                                    Some(q) => {
                                        acc.response = Some(q);
                                    },
                                }
                            }
                            proof {
                                lemma_subrange_skip(buf@, p as int, end as int, (b - p) as int);
                            }
                            cur = b;
                        },
                    }
                } else if field == 4 {
                    if wire != WIRE_VARINT {
                        return None;
                    }
                    proof {
                        lemma_read_varint_bounds(t);
                    }
                    match read_varint_at(buf, p, end) {
                        None => {
                            return None;
                        },
                        Some((v, m)) => {
                            acc.correlation_id = v;
                            proof {
                                lemma_subrange_skip(buf@, p as int, end as int, m as int);
                            }
                            cur = p + m;
                        },
                    }
                } else {
                    proof {
                        lemma_skip_unknown_bounds(wire, t);
                    }
                    match skip_unknown_at(wire, buf, p, end) {
                        None => {
                            return None;
                        },
                        Some(m) => {
                            proof {
                                lemma_subrange_skip(buf@, p as int, end as int, m as int);
                            }
                            cur = p + m;
                        },
                    }
                }
            },
        }
    }
}

} // verus!
