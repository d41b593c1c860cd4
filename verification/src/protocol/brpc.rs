//! The brpc protocol.
//!
//! A package is the four bytes `PRPC`, the big-endian 32-bit length of what
//! follows the twelve-byte header, the big-endian 32-bit length of the meta,
//! the encoded [`RpcMeta`], and the body.

use bytes::{Bytes, BytesMut};
use vstd::prelude::*;

use super::ProtocolError;
use crate::buffer::{
    buf_as_slice, buf_content, buf_extend, buf_freeze, buf_split_to, bytes_as_slice, bytes_content,
};
use crate::controller::{default_controller, Controller};
use crate::message::{lemma_meta_roundtrip, meta_bytes, parse_meta, MetaModel, RpcMeta};

verus! {

/// The four bytes that open a brpc package: `PRPC`.
pub open spec fn brpc_magic() -> Seq<u8> {
    seq![0x50u8, 0x52u8, 0x50u8, 0x43u8]
}

/// The big-endian 32-bit number in the first four bytes of `s`.
pub open spec fn be32(s: Seq<u8>) -> u32 {
    ((s[0] as u32) << 24u32) | ((s[1] as u32) << 16u32) | ((s[2] as u32) << 8u32) | (s[3] as u32)
}

/// The big-endian bytes of `v`.
pub open spec fn be32_bytes(v: u32) -> Seq<u8> {
    seq![(v >> 24u32) as u8, (v >> 16u32) as u8, (v >> 8u32) as u8, v as u8]
}

/// How far a brpc parser has read into the package at the front of the
/// stream.
#[derive(Clone, Copy, Debug, PartialEq, Eq)]
pub enum BrpcParseState {
    /// Expecting the `PRPC` magic.
    ReadingHeader,
    /// Expecting the two lengths.
    ReadingLength,
    /// Expecting the meta and body; the package length and the meta length.
    ReadingContent(u32, u32),
}

/// What a parse step yields: the package (meta and body) or why there is
/// none, the new parse state, and what is left of the buffer.
pub type BrpcStep = (Result<(MetaModel, Seq<u8>), ProtocolError>, BrpcParseState, Seq<u8>);

/// The step once both lengths are known.
pub open spec fn brpc_content(pkg_len: u32, meta_len: u32, buf: Seq<u8>) -> BrpcStep {
    if buf.len() < pkg_len {
        (Err(ProtocolError::NeedMoreBytes), BrpcParseState::ReadingContent(pkg_len, meta_len), buf)
    } else if meta_len > pkg_len {
        (Err(ProtocolError::AbsolutelyWrong), BrpcParseState::ReadingContent(pkg_len, meta_len), buf)
    } else {
        match parse_meta(buf.take(meta_len as int)) {
            None => (
                Err(ProtocolError::AbsolutelyWrong),
                BrpcParseState::ReadingContent(pkg_len, meta_len),
                buf.skip(meta_len as int),
            ),
            Some(m) => (
                Ok((m, buf.subrange(meta_len as int, pkg_len as int))),
                BrpcParseState::ReadingHeader,
                buf.skip(pkg_len as int),
            ),
        }
    }
}

/// The step once the magic has been read.
pub open spec fn brpc_length(buf: Seq<u8>) -> BrpcStep {
    if buf.len() < 8 {
        (Err(ProtocolError::NeedMoreBytes), BrpcParseState::ReadingLength, buf)
    } else {
        brpc_content(be32(buf), be32(buf.skip(4)), buf.skip(8))
    }
}

/// One call of the parser in state `state` on the buffer `buf`.
pub open spec fn brpc_parse(state: BrpcParseState, buf: Seq<u8>) -> BrpcStep {
    match state {
        BrpcParseState::ReadingHeader => {
            if buf.len() < 4 {
                (Err(ProtocolError::NeedMoreBytes), state, buf)
            } else if buf.take(4) != brpc_magic() {
                (Err(ProtocolError::TryOthers), state, buf)
            } else {
                brpc_length(buf.skip(4))
            }
        },
        BrpcParseState::ReadingLength => brpc_length(buf),
        BrpcParseState::ReadingContent(p, m) => brpc_content(p, m, buf),
    }
}

/// The package that carries `meta` and `body`.
pub open spec fn brpc_frame(meta: MetaModel, body: Seq<u8>) -> Seq<u8> {
    let mb = meta_bytes(meta);
    brpc_magic() + be32_bytes((mb.len() + body.len()) as u32) + be32_bytes(mb.len() as u32) + mb
        + body
}

/// The lengths of the package fit its 32-bit fields.
pub open spec fn brpc_frame_fits(meta: MetaModel, body: Seq<u8>) -> bool {
    meta_bytes(meta).len() + body.len() + 12 <= u32::MAX
}

/// The brpc protocol, with the progress of the package being read.
#[derive(Clone, Copy, Debug)]
pub struct BrpcProtocol {
    state: BrpcParseState,
}

fn read_be32(s: &[u8], at: usize) -> (r: u32)
    requires
        at + 4 <= s@.len(),
    ensures
        r == be32(s@.skip(at as int)),
{
    ((s[at] as u32) << 24u32) | ((s[at + 1] as u32) << 16u32) | ((s[at + 2] as u32) << 8u32) | (
    s[at + 3] as u32)
}

fn be32_to_bytes(v: u32) -> (r: [u8; 4])
    ensures
        r@ == be32_bytes(v),
{
    let r = [(v >> 24u32) as u8, (v >> 16u32) as u8, (v >> 8u32) as u8, v as u8];
    assert(r@ =~= be32_bytes(v));
    r
}

impl BrpcProtocol {
    /// The parse progress.
    pub closed spec fn parse_state(&self) -> BrpcParseState {
        self.state
    }

    /// A parser at the start of a package.
    pub fn new() -> (r: Self)
        ensures
            r.parse_state() == BrpcParseState::ReadingHeader,
    {
        BrpcProtocol { state: BrpcParseState::ReadingHeader }
    }

    /// A copy of this parser, in the same state.
    pub fn new_boxed(&self) -> (r: Self)
        ensures
            r.parse_state() == self.parse_state(),
    {
        BrpcProtocol { state: self.state }
    }

    /// The protocol's name.
    pub fn name(&self) -> (r: &'static str)
        ensures
            r@ == "brpc"@,
    {
        "brpc"
    }

    fn parse_content(&mut self, pkg_len: u32, meta_len: u32, buf: &mut BytesMut) -> (r: Result<
        (u64, (RpcMeta, Controller, Bytes)),
        ProtocolError,
    >)
        ensures
            brpc_step_holds(
                brpc_content(pkg_len, meta_len, buf_content(*old(buf))),
                r,
                final(self).state,
                buf_content(*final(buf)),
            ),
    {
        let len = buf_as_slice(buf).len();
        if len < pkg_len as usize {
            self.state = BrpcParseState::ReadingContent(pkg_len, meta_len);
            return Err(ProtocolError::NeedMoreBytes);
        }
        if meta_len > pkg_len {
            self.state = BrpcParseState::ReadingContent(pkg_len, meta_len);
            return Err(ProtocolError::AbsolutelyWrong);
        }
        let ghost before = buf_content(*buf);
        let meta_part = buf_split_to(buf, meta_len as usize);
        match RpcMeta::parse_from_bytes(buf_as_slice(&meta_part)) {
            None => {
                self.state = BrpcParseState::ReadingContent(pkg_len, meta_len);
                Err(ProtocolError::AbsolutelyWrong)
            },
            Some(meta) => {
                let body = buf_freeze(buf_split_to(buf, (pkg_len - meta_len) as usize));
                proof {
                    assert(bytes_content(body) =~= before.subrange(meta_len as int, pkg_len as int));
                    assert(buf_content(*buf) =~= before.skip(pkg_len as int));
                }
                self.state = BrpcParseState::ReadingHeader;
                Ok((meta.correlation_id, (meta, Controller::default(), body)))
            },
        }
    }

    fn parse_length(&mut self, buf: &mut BytesMut) -> (r: Result<
        (u64, (RpcMeta, Controller, Bytes)),
        ProtocolError,
    >)
        ensures
            brpc_step_holds(brpc_length(buf_content(*old(buf))), r, final(self).state, buf_content(*final(buf))),
    {
        let s = buf_as_slice(buf);
        if s.len() < 8 {
            self.state = BrpcParseState::ReadingLength;
            return Err(ProtocolError::NeedMoreBytes);
        }
        let pkg_len = read_be32(s, 0);
        let meta_len = read_be32(s, 4);
        let ghost before = buf_content(*buf);
        assert(before.skip(0) =~= before);
        let _ = buf_split_to(buf, 8);
        self.parse_content(pkg_len, meta_len, buf)
    }

    /// Cuts the next package out of `buf`, resuming where the previous call
    /// stopped. On success the buffer loses the package and the result holds
    /// its correlation id, meta and body; when the package is not complete
    /// the bytes read so far are kept track of in the parse state.
    pub fn try_parse(&mut self, buf: &mut BytesMut) -> (r: Result<
        (u64, (RpcMeta, Controller, Bytes)),
        ProtocolError,
    >)
        ensures
            brpc_step_holds(
                brpc_parse(old(self).parse_state(), buf_content(*old(buf))),
                r,
                final(self).parse_state(),
                buf_content(*final(buf)),
            ),
    {
        match self.state {
            BrpcParseState::ReadingHeader => {
                let s = buf_as_slice(buf);
                if s.len() < 4 {
                    return Err(ProtocolError::NeedMoreBytes);
                }
                let ghost before = buf_content(*buf);
                if !(s[0] == 0x50u8 && s[1] == 0x52u8 && s[2] == 0x50u8 && s[3] == 0x43u8) {
                    assert(before.take(4) != brpc_magic()) by {
                        if before.take(4) == brpc_magic() {
                            assert(before.take(4)[0] == s@[0]);
                            assert(before.take(4)[1] == s@[1]);
                            assert(before.take(4)[2] == s@[2]);
                            assert(before.take(4)[3] == s@[3]);
                        }
                    }
                    return Err(ProtocolError::TryOthers);
                }
                assert(before.take(4) =~= brpc_magic());
                let _ = buf_split_to(buf, 4);
                self.parse_length(buf)
            },
            BrpcParseState::ReadingLength => self.parse_length(buf),
            BrpcParseState::ReadingContent(p, m) => self.parse_content(p, m, buf),
        }
    }

    /// Whether a parse step on `buf` would find that the bytes do not start
    /// a brpc package.
    pub fn refuses(&self, buf: &BytesMut) -> (r: bool)
        ensures
            r == (self.parse_state() == BrpcParseState::ReadingHeader && buf_content(*buf).len() >= 4
                && buf_content(*buf).take(4) != brpc_magic()),
    {
        let s = buf_as_slice(buf);
        match self.state {
            BrpcParseState::ReadingHeader => {
                if s.len() < 4 {
                    return false;
                }
                let ghost b = s@;
                if !(s[0] == 0x50u8 && s[1] == 0x52u8 && s[2] == 0x50u8 && s[3] == 0x43u8) {
                    assert(b.take(4) != brpc_magic()) by {
                        if b.take(4) == brpc_magic() {
                            assert(b.take(4)[0] == s@[0]);
                            assert(b.take(4)[1] == s@[1]);
                            assert(b.take(4)[2] == s@[2]);
                            assert(b.take(4)[3] == s@[3]);
                        }
                    }
                    return true;
                }
                assert(b.take(4) =~= brpc_magic());
                false
            },
            _ => false,
        }
    }

    /// Appends the package of `meta` and `body` to `buf`; the controller
    /// plays no part in this protocol.
    pub fn write_package(&self, pkg: (RpcMeta, Controller, Bytes), buf: &mut BytesMut)
        requires
            brpc_frame_fits(pkg.0@, bytes_content(pkg.2)),
            buf_content(*old(buf)).len() + meta_bytes(pkg.0@).len() + bytes_content(pkg.2).len() + 12
                <= isize::MAX,
        ensures
            buf_content(*final(buf)) == buf_content(*old(buf)) + brpc_frame(pkg.0@, bytes_content(pkg.2)),
    {
        let (meta, _, body) = pkg;
        let meta_buf = meta.write_to_bytes();
        let body_slice = bytes_as_slice(&body);
        let meta_len = meta_buf.len() as u32;
        let body_len = body_slice.len() as u32;
        let magic: [u8; 4] = [0x50u8, 0x52u8, 0x50u8, 0x43u8];
        assert(magic@ =~= brpc_magic());
        buf_extend(buf, &magic);
        let total = be32_to_bytes(meta_len + body_len);
        buf_extend(buf, &total);
        let ml = be32_to_bytes(meta_len);
        buf_extend(buf, &ml);
        buf_extend(buf, meta_buf.as_slice());
        buf_extend(buf, body_slice);
        assert(buf_content(*buf) =~= buf_content(*old(buf)) + brpc_frame(meta@, bytes_content(body)));
    }
}

/// `r`, the new state and the rest of the buffer are what the parse step
/// `step` prescribes: on success the id is the meta's correlation id and the
/// controller carries no details.
pub open spec fn brpc_step_holds(
    step: BrpcStep,
    r: Result<(u64, (RpcMeta, Controller, Bytes)), ProtocolError>,
    state: BrpcParseState,
    rest: Seq<u8>,
) -> bool {
    &&& state == step.1
    &&& rest == step.2
    &&& match step.0 {
        Err(e) => r == Err::<(u64, (RpcMeta, Controller, Bytes)), ProtocolError>(e),
        Ok((m, b)) => r matches Ok((id, (meta, ctrl, body))) && id == m.correlation_id && meta@ == m
            && ctrl@ == default_controller() && bytes_content(body) == b,
    }
}


// ----- laws -----

proof fn lemma_be32_roundtrip(v: u32, rest: Seq<u8>)
    ensures
        be32(be32_bytes(v) + rest) == v,
{
    let s = be32_bytes(v) + rest;
    let (a, b, c, d) = (s[0], s[1], s[2], s[3]);
    assert(a == (v >> 24u32) as u8 && b == (v >> 16u32) as u8 && c == (v >> 8u32) as u8 && d == v as u8);
    assert((((a as u32) << 24u32) | ((b as u32) << 16u32) | ((c as u32) << 8u32) | (d as u32)) == v)
        by (bit_vector)
        requires
            a == (v >> 24u32) as u8,
            b == (v >> 16u32) as u8,
            c == (v >> 8u32) as u8,
            d == v as u8,
    ;
}

/// Where in the package of `meta` and `body` a parser in state `state`
/// stands: the state matches the package.
pub open spec fn brpc_state_matches(state: BrpcParseState, meta: MetaModel, body: Seq<u8>) -> bool {
    match state {
        BrpcParseState::ReadingContent(p, m) => p == (meta_bytes(meta).len() + body.len()) as u32 && m
            == meta_bytes(meta).len() as u32,
        _ => true,
    }
}

/// How many bytes of the package a parser in `state` has consumed.
pub open spec fn brpc_state_offset(state: BrpcParseState) -> nat {
    match state {
        BrpcParseState::ReadingHeader => 0,
        BrpcParseState::ReadingLength => 4,
        BrpcParseState::ReadingContent(_, _) => 12,
    }
}

proof fn lemma_frame_parts(meta: MetaModel, body: Seq<u8>)
    requires
        brpc_frame_fits(meta, body),
    ensures
        ({
            let f = brpc_frame(meta, body);
            let mb = meta_bytes(meta);
            &&& f.len() == 12 + mb.len() + body.len()
            &&& f.take(4) == brpc_magic()
            &&& be32(f.skip(4)) == (mb.len() + body.len()) as u32
            &&& be32(f.skip(8)) == mb.len() as u32
            &&& f.subrange(12, 12 + mb.len() as int) == mb
            &&& f.subrange(12 + mb.len() as int, f.len() as int) == body
        }),
{
    let f = brpc_frame(meta, body);
    let mb = meta_bytes(meta);
    let p = (mb.len() + body.len()) as u32;
    let m = mb.len() as u32;
    assert(f.take(4) =~= brpc_magic());
    assert(f.skip(4) =~= be32_bytes(p) + f.skip(8));
    lemma_be32_roundtrip(p, f.skip(8));
    assert(f.skip(8) =~= be32_bytes(m) + f.skip(12));
    lemma_be32_roundtrip(m, f.skip(12));
    assert(f.subrange(12, 12 + mb.len() as int) =~= mb);
    assert(f.subrange(12 + mb.len() as int, f.len() as int) =~= body);
}

/// Writing a package and parsing the stream gives the package back and
/// leaves what followed it.
pub proof fn lemma_brpc_roundtrip(meta: MetaModel, body: Seq<u8>, rest: Seq<u8>)
    requires
        brpc_frame_fits(meta, body),
    ensures
        brpc_parse(BrpcParseState::ReadingHeader, brpc_frame(meta, body) + rest) == (
            Ok::<(MetaModel, Seq<u8>), ProtocolError>((meta, body)),
            BrpcParseState::ReadingHeader,
            rest,
        ),
{
    let f = brpc_frame(meta, body);
    lemma_brpc_complete(BrpcParseState::ReadingHeader, meta, body, rest);
    assert(f.subrange(0, f.len() as int) =~= f);
}

/// A parser that has consumed part of a package, given the rest of it and
/// whatever follows, yields the package and leaves what followed.
pub proof fn lemma_brpc_complete(state: BrpcParseState, meta: MetaModel, body: Seq<u8>, rest: Seq<u8>)
    requires
        brpc_frame_fits(meta, body),
        brpc_state_matches(state, meta, body),
    ensures
        ({
            let f = brpc_frame(meta, body);
            let buf = f.subrange(brpc_state_offset(state) as int, f.len() as int) + rest;
            &&& brpc_parse(state, buf) == (
                Ok::<(MetaModel, Seq<u8>), ProtocolError>((meta, body)),
                BrpcParseState::ReadingHeader,
                rest,
            )
        }),
{
    let f = brpc_frame(meta, body);
    let mb = meta_bytes(meta);
    lemma_frame_parts(meta, body);
    lemma_meta_roundtrip(meta);
    let p = (mb.len() + body.len()) as u32;
    let m = mb.len() as u32;
    // the content part
    let c = f.subrange(12, f.len() as int) + rest;
    assert(c.take(m as int) =~= mb);
    assert(c.subrange(m as int, p as int) =~= body);
    assert(c.skip(p as int) =~= rest);
    // the lengths part
    let l = f.subrange(4, f.len() as int) + rest;
    assert(l.skip(8) =~= c);
    assert(be32(l) == be32(f.skip(4)));
    assert(be32(l.skip(4)) == be32(f.skip(8)));
    // the header part
    let h = f.subrange(0, f.len() as int) + rest;
    assert(h.take(4) =~= f.take(4));
    assert(h.skip(4) =~= l);
}

/// A parser that has consumed part of a package and is given only part of
/// the rest asks for more bytes, and its state and buffer again stand
/// within the package.
pub proof fn lemma_brpc_partial(state: BrpcParseState, meta: MetaModel, body: Seq<u8>, k: nat)
    requires
        brpc_frame_fits(meta, body),
        brpc_state_matches(state, meta, body),
        brpc_state_offset(state) <= k < brpc_frame(meta, body).len(),
    ensures
        ({
            let f = brpc_frame(meta, body);
            let buf = f.subrange(brpc_state_offset(state) as int, k as int);
            let step = brpc_parse(state, buf);
            &&& step.0 == Err::<(MetaModel, Seq<u8>), ProtocolError>(ProtocolError::NeedMoreBytes)
            &&& brpc_state_matches(step.1, meta, body)
            &&& brpc_state_offset(step.1) <= k
            &&& step.2 == f.subrange(brpc_state_offset(step.1) as int, k as int)
        }),
{
    let f = brpc_frame(meta, body);
    let mb = meta_bytes(meta);
    lemma_frame_parts(meta, body);
    let p = (mb.len() + body.len()) as u32;
    let m = mb.len() as u32;
    if k >= 12 {
        let c = f.subrange(12, k as int);
        assert(c.len() < p);
    }
    if k >= 4 {
        let l = f.subrange(4, k as int);
        if k >= 12 {
            assert(l.skip(8) =~= f.subrange(12, k as int));
            assert(be32(l) == be32(f.skip(4)));
            assert(be32(l.skip(4)) == be32(f.skip(8)));
        }
    }
    match state {
        BrpcParseState::ReadingHeader => {
            let h = f.subrange(0, k as int);
            if k >= 4 {
                assert(h.take(4) =~= f.take(4));
                assert(h.skip(4) =~= f.subrange(4, k as int));
            }
        },
        _ => {},
    }
}

/// Feeding a parser in `state`, holding `buf`, the bytes of `f` from
/// `from` up to each cut of `cuts` in turn, one parse call per chunk: the
/// state and the buffer after the last call, or `None` when a call gave
/// anything but a request for more bytes.
pub open spec fn brpc_feed_chunks(
    state: BrpcParseState,
    buf: Seq<u8>,
    f: Seq<u8>,
    from: int,
    cuts: Seq<int>,
) -> Option<(BrpcParseState, Seq<u8>)>
    decreases cuts.len(),
{
    if cuts.len() == 0 {
        Some((state, buf))
    } else {
        let step = brpc_parse(state, buf + f.subrange(from, cuts[0]));
        if step.0 == Err::<(MetaModel, Seq<u8>), ProtocolError>(ProtocolError::NeedMoreBytes) {
            brpc_feed_chunks(step.1, step.2, f, cuts[0], cuts.drop_first())
        } else {
            None
        }
    }
}

/// The cuts rise from `from` and stay inside the package of length `len`.
pub open spec fn cuts_within(from: int, cuts: Seq<int>, len: int) -> bool {
    &&& forall|i: int| 0 <= i < cuts.len() ==> #[trigger] cuts[i] < len
    &&& forall|i: int| 0 <= i < cuts.len() ==> from <= #[trigger] cuts[i]
    &&& forall|i: int, j: int| 0 <= i <= j < cuts.len() ==> #[trigger] cuts[i] <= #[trigger] cuts[j]
}

/// The last cut, or `from` when there is none.
pub open spec fn last_cut(from: int, cuts: Seq<int>) -> int {
    if cuts.len() == 0 {
        from
    } else {
        cuts.last()
    }
}

proof fn lemma_feed_within(state: BrpcParseState, meta: MetaModel, body: Seq<u8>, from: int, cuts: Seq<int>)
    requires
        brpc_frame_fits(meta, body),
        brpc_state_matches(state, meta, body),
        brpc_state_offset(state) <= from,
        cuts_within(from, cuts, brpc_frame(meta, body).len() as int),
    ensures
        ({
            let f = brpc_frame(meta, body);
            let buf = f.subrange(brpc_state_offset(state) as int, from);
            brpc_feed_chunks(state, buf, f, from, cuts) matches Some((st, b)) && brpc_state_matches(st, meta, body)
                && brpc_state_offset(st) <= last_cut(from, cuts) && b == f.subrange(
                brpc_state_offset(st) as int,
                last_cut(from, cuts),
            )
        }),
    decreases cuts.len(),
{
    let f = brpc_frame(meta, body);
    if cuts.len() > 0 {
        let c = cuts[0];
        let buf = f.subrange(brpc_state_offset(state) as int, from);
        assert(buf + f.subrange(from, c) =~= f.subrange(brpc_state_offset(state) as int, c));
        lemma_brpc_partial(state, meta, body, c as nat);
        let step = brpc_parse(state, f.subrange(brpc_state_offset(state) as int, c));
        let rest = cuts.drop_first();
        assert(cuts_within(c, rest, f.len() as int)) by {
            assert forall|i: int| 0 <= i < rest.len() implies c <= #[trigger] rest[i] by {
                assert(rest[i] == cuts[i + 1]);
                assert(cuts[0] <= cuts[i + 1]);
            }
            assert forall|i: int, j: int| 0 <= i <= j < rest.len() implies #[trigger] rest[i] <= #[trigger] rest[j] by {
                assert(rest[i] == cuts[i + 1] && rest[j] == cuts[j + 1]);
                assert(cuts[i + 1] <= cuts[j + 1]);
            }
            assert forall|i: int| 0 <= i < rest.len() implies #[trigger] rest[i] < f.len() by {
                assert(rest[i] == cuts[i + 1]);
            }
        }
        lemma_feed_within(step.1, meta, body, c, rest);
        if rest.len() > 0 {
            assert(rest.last() == cuts.last());
        }
    }
}

/// A package that arrives in chunks, cut anywhere, is read whole: each
/// chunk but the last only asks for more bytes, and the last one, with
/// whatever follows the package, gives the package and leaves what
/// followed.
pub proof fn lemma_brpc_chunks(meta: MetaModel, body: Seq<u8>, cuts: Seq<int>, rest: Seq<u8>)
    requires
        brpc_frame_fits(meta, body),
        cuts_within(0, cuts, brpc_frame(meta, body).len() as int),
    ensures
        ({
            let f = brpc_frame(meta, body);
            let last = last_cut(0, cuts);
            brpc_feed_chunks(BrpcParseState::ReadingHeader, Seq::empty(), f, 0, cuts) matches Some((st, b))
                && brpc_parse(st, b + f.subrange(last, f.len() as int) + rest) == (
                Ok::<(MetaModel, Seq<u8>), ProtocolError>((meta, body)),
                BrpcParseState::ReadingHeader,
                rest,
            )
        }),
{
    let f = brpc_frame(meta, body);
    let last = last_cut(0, cuts);
    assert(f.subrange(0, 0) =~= Seq::<u8>::empty());
    lemma_feed_within(BrpcParseState::ReadingHeader, meta, body, 0, cuts);
    let (st, b) = brpc_feed_chunks(BrpcParseState::ReadingHeader, Seq::empty(), f, 0, cuts)->0;
    assert(b + f.subrange(last, f.len() as int) + rest =~= f.subrange(
        brpc_state_offset(st) as int,
        f.len() as int,
    ) + rest);
    lemma_brpc_complete(st, meta, body, rest);
}

} // verus!
