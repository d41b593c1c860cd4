//! The messages of the example services, in protobuf encoding.
//!
//! Three shapes cover them: a message of one text field, a message of one
//! number field, and a message without fields. A field is field number 1;
//! other fields are skipped when decoding, and of repeated occurrences of
//! field 1 the last one counts, as protobuf does.

use vstd::prelude::*;
use vstd::utf8::*;

use crate::codec::ProtoMessage;
use crate::message::{
    lemma_encode_utf8_empty, lemma_read_string_field_of, lemma_read_tag_of, len_prefixed,
    push_string_field, push_tag, push_varint_field, read_string_at, read_string_field, string_field_bytes,
    varint_field_bytes,
};
use crate::wire::{
    lemma_read_delimited_bounds, lemma_read_tag_bounds, lemma_read_varint_bounds,
    lemma_read_varint_bytes, lemma_skip_unknown_bounds, lemma_subrange_skip, read_tag,
    read_tag_at, read_varint, read_varint_at, skip_unknown, skip_unknown_at, tag_bytes,
    varint_bytes, WIRE_DELIMITED, WIRE_VARINT,
};

verus! {

// ----- decoding, as specifications -----

/// Reads the fields of `s` keeping the text of the last field 1, starting
/// from `acc`.
pub open spec fn merge_text(acc: Seq<char>, s: Seq<u8>) -> Option<Seq<char>>
    decreases s.len(),
{
    if s.len() == 0 {
        Some(acc)
    } else {
        match read_tag(s) {
            None => None,
            Some((field, wire, n)) => {
                proof {
                    lemma_read_tag_bounds(s);
                }
                let t = s.skip(n as int);
                if field == 1 {
                    if wire != WIRE_DELIMITED {
                        None
                    } else {
                        match read_string_field(t) {
                            None => None,
                            Some((v, m)) => {
                                proof {
                                    lemma_read_delimited_bounds(t);
                                }
                                merge_text(v, t.skip(m as int))
                            },
                        }
                    }
                } else {
                    match skip_unknown(wire, t) {
                        None => None,
                        Some(m) => {
                            proof {
                                lemma_skip_unknown_bounds(wire, t);
                            }
                            merge_text(acc, t.skip(m as int))
                        },
                    }
                }
            },
        }
    }
}

/// Reads the fields of `s` keeping the value of the last field 1, starting
/// from `acc`.
pub open spec fn merge_number(acc: u64, s: Seq<u8>) -> Option<u64>
    decreases s.len(),
{
    if s.len() == 0 {
        Some(acc)
    } else {
        match read_tag(s) {
            None => None,
            Some((field, wire, n)) => {
                proof {
                    lemma_read_tag_bounds(s);
                }
                let t = s.skip(n as int);
                if field == 1 {
                    if wire != WIRE_VARINT {
                        None
                    } else {
                        match read_varint(t) {
                            None => None,
                            Some((v, m)) => {
                                proof {
                                    lemma_read_varint_bounds(t);
                                }
                                merge_number(v, t.skip(m as int))
                            },
                        }
                    }
                } else {
                    match skip_unknown(wire, t) {
                        None => None,
                        Some(m) => {
                            proof {
                                lemma_skip_unknown_bounds(wire, t);
                            }
                            merge_number(acc, t.skip(m as int))
                        },
                    }
                }
            },
        }
    }
}

/// All the fields of `s` can be skipped.
pub open spec fn skip_fields(s: Seq<u8>) -> bool
    decreases s.len(),
{
    if s.len() == 0 {
        true
    } else {
        match read_tag(s) {
            None => false,
            Some((_, wire, n)) => {
                proof {
                    lemma_read_tag_bounds(s);
                }
                let t = s.skip(n as int);
                match skip_unknown(wire, t) {
                    None => false,
                    Some(m) => {
                        proof {
                            lemma_skip_unknown_bounds(wire, t);
                        }
                        skip_fields(t.skip(m as int))
                    },
                }
            },
        }
    }
}

// ----- the encodings read back -----

proof fn lemma_merge_text_field(acc: Seq<char>, v: Seq<char>, rest: Seq<u8>)
    requires
        v.len() > 0,
        encode_utf8(v).len() <= u32::MAX,
    ensures
        merge_text(acc, string_field_bytes(1, v) + rest) == merge_text(v, rest),
{
    let tag = tag_bytes(1, WIRE_DELIMITED);
    let body = len_prefixed(encode_utf8(v));
    let s = string_field_bytes(1, v) + rest;
    assert(s =~= tag + (body + rest));
    lemma_read_tag_of(1, WIRE_DELIMITED, body + rest);
    assert(s.skip(tag.len() as int) =~= body + rest);
    lemma_read_string_field_of(v, rest);
    assert((body + rest).skip(body.len() as int) =~= rest);
}

proof fn lemma_merge_number_field(acc: u64, v: u64, rest: Seq<u8>)
    requires
        v != 0,
    ensures
        merge_number(acc, varint_field_bytes(1, v) + rest) == merge_number(v, rest),
{
    let tag = tag_bytes(1, WIRE_VARINT);
    let s = varint_field_bytes(1, v) + rest;
    assert(s =~= tag + (varint_bytes(v) + rest));
    lemma_read_tag_of(1, WIRE_VARINT, varint_bytes(v) + rest);
    assert(s.skip(tag.len() as int) =~= varint_bytes(v) + rest);
    lemma_read_varint_bytes(v, rest);
    assert((varint_bytes(v) + rest).skip(varint_bytes(v).len() as int) =~= rest);
}

/// A text reads back from its encoding.
pub proof fn lemma_text_roundtrip(v: Seq<char>)
    requires
        string_field_bytes(1, v).len() <= u32::MAX,
    ensures
        merge_text(Seq::empty(), string_field_bytes(1, v)) == Some(v),
{
    lemma_encode_utf8_empty(v);
    let empty: Seq<u8> = seq![];
    if v.len() > 0 {
        assert(string_field_bytes(1, v) =~= string_field_bytes(1, v) + empty);
        lemma_merge_text_field(Seq::empty(), v, empty);
    } else {
        assert(v =~= Seq::<char>::empty());
    }
}

/// A number reads back from its encoding.
pub proof fn lemma_number_roundtrip(v: u64)
    ensures
        merge_number(0, varint_field_bytes(1, v)) == Some(v),
{
    let empty: Seq<u8> = seq![];
    if v != 0 {
        assert(varint_field_bytes(1, v) =~= varint_field_bytes(1, v) + empty);
        lemma_merge_number_field(0, v, empty);
    }
}

// ----- decoding, in code -----

fn merge_text_at(buf: &[u8], start: usize, end: usize) -> (r: Option<String>)
    requires
        start <= end <= buf@.len(),
    ensures
        match merge_text(Seq::empty(), buf@.subrange(start as int, end as int)) {
            None => r is None,
            Some(v) => r matches Some(x) && x@ == v,
        },
{
    let mut acc = String::new();
    let mut cur = start;
    loop
        invariant
            start <= cur <= end <= buf@.len(),
            merge_text(acc@, buf@.subrange(cur as int, end as int)) == merge_text(
                Seq::empty(),
                buf@.subrange(start as int, end as int),
            ),
        decreases end - cur,
    {
        let ghost s = buf@.subrange(cur as int, end as int);
        if cur == end {
            return Some(acc);
        }
        proof {
            lemma_read_tag_bounds(s);
        }
        match read_tag_at(buf, cur, end) {
            None => {
                return None;
            },
            Some((field, wire, n)) => {
                let p = cur + n;
                proof {
                    lemma_subrange_skip(buf@, cur as int, end as int, n as int);
                }
                let ghost t = s.skip(n as int);
                if field == 1 {
                    if wire != WIRE_DELIMITED {
                        return None;
                    }
                    proof {
                        lemma_read_delimited_bounds(t);
                    }
                    match read_string_at(buf, p, end) {
                        None => {
                            return None;
                        },
                        Some((v, m)) => {
                            acc = v;
                            proof {
                                lemma_subrange_skip(buf@, p as int, end as int, m as int);
                            }
                            cur = p + m;
                        },
                    }
                } else {
                    proof {
                        lemma_skip_unknown_bounds(wire, t);
                    }
                    match skip_unknown_at(wire, buf, p, end) {
                        None => {
                            return None;
                        },
                        Some(m) => {
                            proof {
                                lemma_subrange_skip(buf@, p as int, end as int, m as int);
                            }
                            cur = p + m;
                        },
                    }
                }
            },
        }
    }
}

fn merge_number_at(buf: &[u8], start: usize, end: usize) -> (r: Option<u64>)
    requires
        start <= end <= buf@.len(),
    ensures
        r == merge_number(0, buf@.subrange(start as int, end as int)),
{
    let mut acc: u64 = 0;
    let mut cur = start;
    loop
        invariant
            start <= cur <= end <= buf@.len(),
            merge_number(acc, buf@.subrange(cur as int, end as int)) == merge_number(
                0,
                buf@.subrange(start as int, end as int),
            ),
        decreases end - cur,
    {
        let ghost s = buf@.subrange(cur as int, end as int);
        if cur == end {
            return Some(acc);
        }
        proof {
            lemma_read_tag_bounds(s);
        }
        match read_tag_at(buf, cur, end) {
            None => {
                return None;
            },
            Some((field, wire, n)) => {
                let p = cur + n;
                proof {
                    lemma_subrange_skip(buf@, cur as int, end as int, n as int);
                }
                let ghost t = s.skip(n as int);
                if field == 1 {
                    if wire != WIRE_VARINT {
                        return None;
                    }
                    proof {
                        lemma_read_varint_bounds(t);
                    }
                    match read_varint_at(buf, p, end) {
                        None => {
                            return None;
                        },
                        Some((v, m)) => {
                            acc = v;
                            proof {
                                lemma_subrange_skip(buf@, p as int, end as int, m as int);
                            }
                            cur = p + m;
                        },
                    }
                } else {
                    proof {
                        lemma_skip_unknown_bounds(wire, t);
                    }
                    match skip_unknown_at(wire, buf, p, end) {
                        None => {
                            return None;
                        },
                        Some(m) => {
                            proof {
                                lemma_subrange_skip(buf@, p as int, end as int, m as int);
                            }
                            cur = p + m;
                        },
                    }
                }
            },
        }
    }
}

fn skip_fields_at(buf: &[u8], start: usize, end: usize) -> (r: bool)
    requires
        start <= end <= buf@.len(),
    ensures
        r == skip_fields(buf@.subrange(start as int, end as int)),
{
    let mut cur = start;
    loop
        invariant
            start <= cur <= end <= buf@.len(),
            skip_fields(buf@.subrange(cur as int, end as int)) == skip_fields(
                buf@.subrange(start as int, end as int),
            ),
        decreases end - cur,
    {
        let ghost s = buf@.subrange(cur as int, end as int);
        if cur == end {
            return true;
        }
        proof {
            lemma_read_tag_bounds(s);
        }
        match read_tag_at(buf, cur, end) {
            None => {
                return false;
            },
            Some((_field, wire, n)) => {
                let p = cur + n;
                proof {
                    lemma_subrange_skip(buf@, cur as int, end as int, n as int);
                    lemma_skip_unknown_bounds(wire, s.skip(n as int));
                }
                match skip_unknown_at(wire, buf, p, end) {
                    None => {
                        return false;
                    },
                    Some(m) => {
                        proof {
                            lemma_subrange_skip(buf@, p as int, end as int, m as int);
                        }
                        cur = p + m;
                    },
                }
            },
        }
    }
}

// ----- the message types -----

/// A message of one text field, `msg`.
#[derive(Clone, Debug, PartialEq, Eq, Default)]
pub struct TextMessage {
    /// The text.
    pub msg: String,
}

/// A message of one number field, `number`.
#[derive(Clone, Copy, Debug, PartialEq, Eq, Default)]
pub struct NumberMessage {
    /// The number.
    pub number: u64,
}

/// A message of one flag, `flag`.
#[derive(Clone, Copy, Debug, PartialEq, Eq, Default)]
pub struct FlagMessage {
    /// The flag.
    pub flag: bool,
}

/// A message without fields.
#[derive(Clone, Copy, Debug, PartialEq, Eq, Default)]
pub struct Empty {}

impl View for TextMessage {
    type V = Seq<char>;

    open spec fn view(&self) -> Seq<char> {
        self.msg@
    }
}

impl View for NumberMessage {
    type V = u64;

    open spec fn view(&self) -> u64 {
        self.number
    }
}

impl View for FlagMessage {
    type V = bool;

    open spec fn view(&self) -> bool {
        self.flag
    }
}

impl View for Empty {
    type V = ();

    open spec fn view(&self) -> () {
        ()
    }
}

impl TextMessage {
    /// A message with an empty text.
    pub fn new() -> (r: Self)
        ensures
            r@ == Seq::<char>::empty(),
    {
        TextMessage { msg: String::new() }
    }

    /// Sets the text.
    pub fn set_msg(&mut self, v: String)
        ensures
            final(self)@ == v@,
    {
        self.msg = v;
    }

    /// The text.
    pub fn get_msg(&self) -> (r: &str)
        ensures
            r@ == self@,
    {
        self.msg.as_str()
    }
}

impl NumberMessage {
    /// A message holding zero.
    pub fn new() -> (r: Self)
        ensures
            r@ == 0,
    {
        NumberMessage { number: 0 }
    }
}

impl FlagMessage {
    /// A message holding `false`.
    pub fn new() -> (r: Self)
        ensures
            r@ == false,
    {
        FlagMessage { flag: false }
    }
}

impl Empty {
    /// The empty message.
    pub fn new() -> (r: Self) {
        Empty {}
    }
}

impl ProtoMessage for TextMessage {
    open spec fn wire_of(m: Seq<char>) -> Seq<u8> {
        string_field_bytes(1, m)
    }

    open spec fn parse_wire(b: Seq<u8>) -> Option<Seq<char>> {
        merge_text(Seq::empty(), b)
    }

    open spec fn fits(m: Seq<char>) -> bool {
        string_field_bytes(1, m).len() <= u32::MAX
    }

    proof fn lemma_roundtrip(m: Seq<char>) {
        lemma_text_roundtrip(m);
    }

    fn check_fits(&self) -> (r: bool) {
        let n = self.msg.as_str().as_bytes().len();
        proof {
            lemma_encode_utf8_empty(self@);
        }
        if n == 0 {
            return true;
        }
        if n as u64 > 0xffff_ffff {
            return false;
        }
        let mut head: Vec<u8> = Vec::new();
        push_tag(&mut head, 1, WIRE_DELIMITED);
        crate::wire::push_varint(&mut head, n as u64);
        proof {
            crate::wire::lemma_varint_bytes_len(n as u64);
            crate::wire::lemma_varint_bytes_len(((1u32 as u64) << 3u64) | (WIRE_DELIMITED as u64));
        }
        let total: u64 = head.len() as u64 + n as u64;
        total <= 0xffff_ffff
    }

    fn write_to_bytes(&self) -> (r: Vec<u8>) {
        let mut out: Vec<u8> = Vec::new();
        push_string_field(&mut out, 1, &self.msg);
        assert(out@ =~= string_field_bytes(1, self@));
        out
    }

    fn parse_from_bytes(buf: &[u8]) -> (r: Option<Self>) {
        assert(buf@.subrange(0, buf@.len() as int) =~= buf@);
        match merge_text_at(buf, 0, buf.len()) {
            None => None,
            Some(s) => Some(TextMessage { msg: s }),
        }
    }
}

impl ProtoMessage for NumberMessage {
    open spec fn wire_of(m: u64) -> Seq<u8> {
        varint_field_bytes(1, m)
    }

    open spec fn parse_wire(b: Seq<u8>) -> Option<u64> {
        merge_number(0, b)
    }

    open spec fn fits(m: u64) -> bool {
        true
    }

    proof fn lemma_roundtrip(m: u64) {
        lemma_number_roundtrip(m);
    }

    fn check_fits(&self) -> (r: bool) {
        true
    }

    fn write_to_bytes(&self) -> (r: Vec<u8>) {
        let mut out: Vec<u8> = Vec::new();
        push_varint_field(&mut out, 1, self.number);
        assert(out@ =~= varint_field_bytes(1, self@));
        out
    }

    fn parse_from_bytes(buf: &[u8]) -> (r: Option<Self>) {
        assert(buf@.subrange(0, buf@.len() as int) =~= buf@);
        match merge_number_at(buf, 0, buf.len()) {
            None => None,
            Some(v) => Some(NumberMessage { number: v }),
        }
    }
}

/// The flag a decoded number stands for: protobuf reads a flag as a 32-bit
/// number and takes any nonzero value as `true`.
pub open spec fn flag_of(v: u64) -> bool {
    (v as u32) != 0
}

impl ProtoMessage for FlagMessage {
    open spec fn wire_of(m: bool) -> Seq<u8> {
        varint_field_bytes(1, if m { 1 } else { 0 })
    }

    open spec fn parse_wire(b: Seq<u8>) -> Option<bool> {
        match merge_number(0, b) {
            None => None,
            Some(v) => Some(flag_of(v)),
        }
    }

    open spec fn fits(m: bool) -> bool {
        true
    }

    proof fn lemma_roundtrip(m: bool) {
        lemma_number_roundtrip(if m { 1 } else { 0 });
        assert(flag_of(1) == true && flag_of(0) == false) by (bit_vector);
    }

    fn check_fits(&self) -> (r: bool) {
        true
    }

    fn write_to_bytes(&self) -> (r: Vec<u8>) {
        let mut out: Vec<u8> = Vec::new();
        push_varint_field(&mut out, 1, if self.flag { 1 } else { 0 });
        assert(out@ =~= varint_field_bytes(1, if self@ { 1 } else { 0 }));
        out
    }

    fn parse_from_bytes(buf: &[u8]) -> (r: Option<Self>) {
        assert(buf@.subrange(0, buf@.len() as int) =~= buf@);
        match merge_number_at(buf, 0, buf.len()) {
            None => None,
            Some(v) => {
                let flag = (v as u32) != 0;
                Some(FlagMessage { flag })
            },
        }
    }
}

impl ProtoMessage for Empty {
    open spec fn wire_of(m: ()) -> Seq<u8> {
        Seq::empty()
    }

    open spec fn parse_wire(b: Seq<u8>) -> Option<()> {
        if skip_fields(b) {
            Some(())
        } else {
            None
        }
    }

    open spec fn fits(m: ()) -> bool {
        true
    }

    proof fn lemma_roundtrip(m: ()) {
    }

    fn check_fits(&self) -> (r: bool) {
        true
    }

    fn write_to_bytes(&self) -> (r: Vec<u8>) {
        Vec::new()
    }

    fn parse_from_bytes(buf: &[u8]) -> (r: Option<Self>) {
        assert(buf@.subrange(0, buf@.len() as int) =~= buf@);
        if skip_fields_at(buf, 0, buf.len()) {
            Some(Empty {})
        } else {
            None
        }
    }
}

} // verus!
