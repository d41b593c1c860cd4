//! Protobuf wire-format primitives: base-128 varints, field tags,
//! length-delimited payloads, and the skipping of unknown fields.

use vstd::prelude::*;

verus! {

/// The base-128 varint encoding of `v`, least significant group first.
pub open spec fn varint_bytes(v: u64) -> Seq<u8>
    decreases v,
{
    if v < 0x80 {
        seq![v as u8]
    } else {
        proof {
            assert(v >= 0x80 ==> v >> 7 < v) by (bit_vector);
        }
        seq![((v & 0x7f) | 0x80) as u8] + varint_bytes(v >> 7)
    }
}

/// Reads a varint at the start of `s`, allowing at most `fuel` bytes.
///
/// The value is the bitwise or of the low seven bits of each byte shifted
/// into place, truncated to 64 bits; the result is the value and the number
/// of bytes read. `None` when the input ends first or `fuel` bytes all
/// carry a continuation bit.
pub open spec fn read_varint_fuel(s: Seq<u8>, fuel: nat) -> Option<(u64, nat)>
    decreases fuel,
{
    if fuel == 0 || s.len() == 0 {
        None
    } else if s[0] < 0x80 {
        Some((s[0] as u64, 1))
    } else {
        match read_varint_fuel(s.drop_first(), (fuel - 1) as nat) {
            None => None,
            Some((r, n)) => Some((((s[0] & 0x7f) as u64) | (r << 7u64), n + 1)),
        }
    }
}

/// The longest varint is ten bytes.
pub open spec fn read_varint(s: Seq<u8>) -> Option<(u64, nat)> {
    read_varint_fuel(s, 10)
}

proof fn lemma_varint_bytes_len_k(v: u64, k: u64)
    requires
        k <= 9,
        v >> (7 * k) < 0x80,
    ensures
        varint_bytes(v).len() <= k + 1,
        varint_bytes(v).len() >= 1,
    decreases k,
{
    if v >= 0x80 {
        if k == 0 {
            assert(v >> (7 * k) == v) by (bit_vector)
                requires
                    k == 0,
            ;
        } else {
            let km: u64 = (k - 1) as u64;
            assert((v >> 7) >> (7 * km) == v >> (7 * k)) by (bit_vector)
                requires
                    1 <= k <= 9,
                    km == k - 1,
            ;
            lemma_varint_bytes_len_k(v >> 7, (k - 1) as u64);
        }
    }
}

/// A varint takes between one and ten bytes.
pub proof fn lemma_varint_bytes_len(v: u64)
    ensures
        1 <= varint_bytes(v).len() <= 10,
{
    assert(v >> (7 * 9u64) < 0x80) by (bit_vector);
    lemma_varint_bytes_len_k(v, 9);
}

proof fn lemma_read_varint_fuel_of_bytes(v: u64, rest: Seq<u8>, fuel: nat)
    requires
        varint_bytes(v).len() <= fuel,
    ensures
        read_varint_fuel(varint_bytes(v) + rest, fuel) == Some((v, varint_bytes(v).len())),
    decreases v,
{
    let s = varint_bytes(v) + rest;
    if v < 0x80 {
        assert(s[0] == v as u8);
        assert((v as u8) as u64 == v) by (bit_vector)
            requires
                v < 0x80,
        ;
    } else {
        assert(v >= 0x80 ==> v >> 7 < v) by (bit_vector);
        let b = ((v & 0x7f) | 0x80) as u8;
        assert(s[0] == b);
        assert(b >= 0x80) by (bit_vector)
            requires
                b == ((v & 0x7f) | 0x80) as u8,
        ;
        assert(s.drop_first() =~= varint_bytes(v >> 7) + rest);
        lemma_read_varint_fuel_of_bytes(v >> 7, rest, (fuel - 1) as nat);
        assert((((b & 0x7f) as u64) | ((v >> 7) << 7u64)) == v) by (bit_vector)
            requires
                b == ((v & 0x7f) | 0x80) as u8,
        ;
    }
}

/// Reading the encoding of `v` gives back `v`, whatever follows it.
pub proof fn lemma_read_varint_bytes(v: u64, rest: Seq<u8>)
    ensures
        read_varint(varint_bytes(v) + rest) == Some((v, varint_bytes(v).len())),
{
    lemma_varint_bytes_len(v);
    lemma_read_varint_fuel_of_bytes(v, rest, 10);
}

/// A varint read never consumes more than the input holds.
pub proof fn lemma_read_varint_fuel_bounds(s: Seq<u8>, fuel: nat)
    ensures
        read_varint_fuel(s, fuel) matches Some((_, n)) ==> 1 <= n <= s.len() && n <= fuel,
    decreases fuel,
{
    if fuel > 0 && s.len() > 0 && s[0] >= 0x80 {
        lemma_read_varint_fuel_bounds(s.drop_first(), (fuel - 1) as nat);
    }
}

/// Reading a varint only looks at the bytes it consumes.
pub proof fn lemma_read_varint_fuel_prefix(s: Seq<u8>, t: Seq<u8>, fuel: nat)
    requires
        read_varint_fuel(s, fuel) is Some,
    ensures
        read_varint_fuel(s + t, fuel) == read_varint_fuel(s, fuel),
    decreases fuel,
{
    if s[0] >= 0x80 {
        assert((s + t).drop_first() =~= s.drop_first() + t);
        lemma_read_varint_fuel_prefix(s.drop_first(), t, (fuel - 1) as nat);
    }
}

/// Appends the varint encoding of `v` to `out`.
pub fn push_varint(out: &mut Vec<u8>, v: u64)
    ensures
        final(out)@ == old(out)@ + varint_bytes(v),
{
    let mut x = v;
    while x >= 0x80
        invariant
            out@ + varint_bytes(x) == old(out)@ + varint_bytes(v),
        decreases x,
    {
        let ghost prev = out@;
        let ghost px = x;
        let b = ((x & 0x7f) | 0x80) as u8;
        out.push(b);
        x = x >> 7;
        proof {
            assert(px >= 0x80 ==> px >> 7 < px) by (bit_vector);
            assert(varint_bytes(px) == seq![b] + varint_bytes(x));
            assert(out@ + varint_bytes(x) =~= prev + varint_bytes(px));
        }
    }
    out.push(x as u8);
    assert(varint_bytes(x) == seq![x as u8]);
}

/// Reads a varint from `buf[pos..end]`: the value and the number of bytes read.
pub fn read_varint_at(buf: &[u8], pos: usize, end: usize) -> (r: Option<(u64, usize)>)
    requires
        pos <= end <= buf@.len(),
    ensures
        match read_varint(buf@.subrange(pos as int, end as int)) {
            None => r is None,
            Some((v, n)) => r == Some((v, n as usize)),
        },
{
    let ghost s = buf@.subrange(pos as int, end as int);
    // find the last byte of the varint
    let mut j: usize = 0;
    while j < 10 && pos + j < end && buf[pos + j] >= 0x80
        invariant
            j <= 10,
            pos + j <= end,
            pos <= end <= buf@.len(),
            s == buf@.subrange(pos as int, end as int),
            forall|i: int| 0 <= i < j ==> s[i] >= 0x80,
        decreases 10 - j,
    {
        j = j + 1;
    }
    if j == 10 || pos + j == end {
        proof {
            lemma_read_varint_none(s, 0, 10, j as nat);
            assert(s.skip(0) =~= s);
        }
        return None;
    }
    // read backwards from the last byte
    let mut r: u64 = buf[pos + j] as u64;
    let mut i: usize = j;
    proof {
        assert(s.skip(i as int)[0] == s[i as int]);
    }
    while i > 0
        invariant
            i <= j < 10,
            pos + j < end,
            pos <= end <= buf@.len(),
            s == buf@.subrange(pos as int, end as int),
            forall|k: int| 0 <= k < j ==> s[k] >= 0x80,
            s[j as int] < 0x80,
            read_varint_fuel(s.skip(i as int), (10 - i) as nat) == Some((r, (j - i + 1) as nat)),
        decreases i,
    {
        i = i - 1;
        let b = buf[pos + i];
        proof {
            assert(s.skip(i as int).drop_first() =~= s.skip(i + 1));
            assert(s.skip(i as int)[0] == b);
        }
        r = ((b & 0x7f) as u64) | (r << 7u64);
    }
    assert(s.skip(0) =~= s);
    Some((r, j + 1))
}

proof fn lemma_read_varint_none(s: Seq<u8>, i: nat, fuel: nat, j: nat)
    requires
        i + fuel == 10,
        i <= j <= 10,
        forall|k: int| i <= k < j ==> s[k] >= 0x80,
        j == 10 || j == s.len(),
        j <= s.len(),
    ensures
        read_varint_fuel(s.skip(i as int), fuel) is None,
    decreases fuel,
{
    if fuel > 0 && s.skip(i as int).len() > 0 {
        assert(i < j);
        assert(s.skip(i as int)[0] == s[i as int]);
        assert(s.skip(i as int).drop_first() =~= s.skip(i as int + 1));
        lemma_read_varint_none(s, i + 1, (fuel - 1) as nat, j);
    }
}


/// Wire type of varint-encoded scalars.
pub const WIRE_VARINT: u32 = 0;
/// Wire type of little-endian 64-bit scalars.
pub const WIRE_FIXED64: u32 = 1;
/// Wire type of length-delimited payloads (strings, bytes, messages).
pub const WIRE_DELIMITED: u32 = 2;
/// Wire type that opens a group.
pub const WIRE_START_GROUP: u32 = 3;
/// Wire type that closes a group.
pub const WIRE_END_GROUP: u32 = 4;
/// Wire type of little-endian 32-bit scalars.
pub const WIRE_FIXED32: u32 = 5;

/// The key that precedes a field: field number and wire type in one varint.
pub open spec fn tag_bytes(field: u32, wire: u32) -> Seq<u8> {
    varint_bytes(((field as u64) << 3u64) | (wire as u64))
}

/// Reads a field key: the field number, the wire type and the bytes read.
///
/// The key is read as a varint and truncated to 32 bits; wire types above
/// five and field number zero are refused.
pub open spec fn read_tag(s: Seq<u8>) -> Option<(u32, u32, nat)> {
    match read_varint(s) {
        None => None,
        Some((v, n)) => {
            let t = v as u32;
            let wire = t & 7;
            let field = t >> 3u32;
            if wire > 5 || field == 0 {
                None
            } else {
                Some((field, wire, n))
            }
        },
    }
}

/// A length-delimited payload whose length prefix is cut to 32 bits (strings,
/// and the payloads of unknown fields): the payload and the bytes read.
pub open spec fn read_delimited32(s: Seq<u8>) -> Option<(Seq<u8>, nat)> {
    match read_varint(s) {
        None => None,
        Some((v, n)) => {
            let len = (v as u32) as nat;
            if n + len <= s.len() {
                Some((s.subrange(n as int, (n + len) as int), n + len))
            } else {
                None
            }
        },
    }
}

/// A length-delimited payload with a full 64-bit length prefix (embedded
/// messages): the payload and the bytes read.
pub open spec fn read_delimited64(s: Seq<u8>) -> Option<(Seq<u8>, nat)> {
    match read_varint(s) {
        None => None,
        Some((v, n)) => {
            let len = v as nat;
            if n + len <= s.len() {
                Some((s.subrange(n as int, (n + len) as int), n + len))
            } else {
                None
            }
        },
    }
}

/// The number of bytes taken by a value of wire type `wire` that is not a
/// group, or `None` when the value is cut short or the wire type has no
/// value of its own.
pub open spec fn skip_value(wire: u32, s: Seq<u8>) -> Option<nat> {
    if wire == WIRE_VARINT {
        match read_varint(s) {
            None => None,
            Some((_, n)) => Some(n),
        }
    } else if wire == WIRE_FIXED64 {
        if 8 <= s.len() {
            Some(8)
        } else {
            None
        }
    } else if wire == WIRE_FIXED32 {
        if 4 <= s.len() {
            Some(4)
        } else {
            None
        }
    } else if wire == WIRE_DELIMITED {
        match read_delimited32(s) {
            None => None,
            Some((_, n)) => Some(n),
        }
    } else {
        None
    }
}

/// The number of bytes taken by the rest of a group, up to and including the
/// key that closes it. Groups do not nest.
pub open spec fn skip_group(s: Seq<u8>) -> Option<nat>
    decreases s.len(),
{
    match read_tag(s) {
        None => None,
        Some((_, wire, n)) => {
            if wire == WIRE_END_GROUP {
                Some(n)
            } else {
                match skip_value(wire, s.skip(n as int)) {
                    None => None,
                    Some(m) => {
                        proof {
                            lemma_read_tag_bounds(s);
                            lemma_skip_value_bounds(wire, s.skip(n as int));
                        }
                        match skip_group(s.skip((n + m) as int)) {
                            None => None,
                            Some(k) => Some(n + m + k),
                        }
                    },
                }
            }
        },
    }
}

/// The number of bytes taken by the value of an unknown field of wire type
/// `wire` (the key already read).
pub open spec fn skip_unknown(wire: u32, s: Seq<u8>) -> Option<nat> {
    if wire == WIRE_START_GROUP {
        skip_group(s)
    } else {
        skip_value(wire, s)
    }
}

pub proof fn lemma_read_varint_bounds(s: Seq<u8>)
    ensures
        read_varint(s) matches Some((_, n)) ==> 1 <= n <= s.len() && n <= 10,
{
    lemma_read_varint_fuel_bounds(s, 10);
}

pub proof fn lemma_read_tag_bounds(s: Seq<u8>)
    ensures
        read_tag(s) matches Some((_, _, n)) ==> 1 <= n <= s.len(),
{
    lemma_read_varint_bounds(s);
}

pub proof fn lemma_read_delimited_bounds(s: Seq<u8>)
    ensures
        read_delimited32(s) matches Some((p, n)) ==> 1 <= n <= s.len() && p.len() < n,
        read_delimited64(s) matches Some((p, n)) ==> 1 <= n <= s.len() && p.len() < n,
{
    lemma_read_varint_bounds(s);
}

pub proof fn lemma_skip_value_bounds(wire: u32, s: Seq<u8>)
    ensures
        skip_value(wire, s) matches Some(n) ==> n <= s.len(),
{
    lemma_read_varint_bounds(s);
    lemma_read_delimited_bounds(s);
}

pub proof fn lemma_skip_group_bounds(s: Seq<u8>)
    ensures
        skip_group(s) matches Some(n) ==> 1 <= n <= s.len(),
    decreases s.len(),
{
    lemma_read_tag_bounds(s);
    if let Some((_, wire, n)) = read_tag(s) {
        if wire != WIRE_END_GROUP {
            lemma_skip_value_bounds(wire, s.skip(n as int));
            if let Some(m) = skip_value(wire, s.skip(n as int)) {
                lemma_skip_group_bounds(s.skip((n + m) as int));
            }
        }
    }
}

pub proof fn lemma_skip_unknown_bounds(wire: u32, s: Seq<u8>)
    ensures
        skip_unknown(wire, s) matches Some(n) ==> n <= s.len(),
{
    lemma_skip_value_bounds(wire, s);
    lemma_skip_group_bounds(s);
}

pub proof fn lemma_subrange_skip(s: Seq<u8>, pos: int, end: int, n: int)
    requires
        0 <= pos <= end <= s.len(),
        0 <= n <= end - pos,
    ensures
        s.subrange(pos, end).skip(n) =~= s.subrange(pos + n, end),
{
}

/// Reads a field key from `buf[pos..end]`.
pub fn read_tag_at(buf: &[u8], pos: usize, end: usize) -> (r: Option<(u32, u32, usize)>)
    requires
        pos <= end <= buf@.len(),
    ensures
        match read_tag(buf@.subrange(pos as int, end as int)) {
            None => r is None,
            Some((f, w, n)) => r == Some((f, w, n as usize)),
        },
{
    match read_varint_at(buf, pos, end) {
        None => None,
        Some((v, n)) => {
            let t = v as u32;
            let wire = t & 7;
            let field = t >> 3u32;
            if wire > 5 || field == 0 {
                None
            } else {
                Some((field, wire, n))
            }
        },
    }
}

/// Reads a length-delimited payload from `buf[pos..end]`, the length prefix
/// cut to 32 bits when `wide` is false: the payload's start and end in `buf`.
pub fn read_delimited_at(buf: &[u8], pos: usize, end: usize, wide: bool) -> (r: Option<(usize, usize)>)
    requires
        pos <= end <= buf@.len(),
    ensures
        match (if wide {
            read_delimited64(buf@.subrange(pos as int, end as int))
        } else {
            read_delimited32(buf@.subrange(pos as int, end as int))
        }) {
            None => r is None,
            Some((p, n)) => r matches Some((a, b)) && b == pos + n && a <= b
                && buf@.subrange(a as int, b as int) == p,
        },
{
    let ghost s = buf@.subrange(pos as int, end as int);
    proof {
        lemma_read_varint_bounds(s);
    }
    match read_varint_at(buf, pos, end) {
        None => None,
        Some((v, n)) => {
            let avail = (end - pos - n) as u64;
            let len: u64 = if wide {
                v
            } else {
                (v as u32) as u64
            };
            if len <= avail {
                let a = pos + n;
                let b = a + len as usize;
                assert(buf@.subrange(a as int, b as int) =~= s.subrange(n as int, (n + len) as int));
                Some((a, b))
            } else {
                None
            }
        },
    }
}

/// The number of bytes taken by a non-group value of wire type `wire` at
/// `buf[pos..end]`.
pub fn skip_value_at(wire: u32, buf: &[u8], pos: usize, end: usize) -> (r: Option<usize>)
    requires
        pos <= end <= buf@.len(),
    ensures
        match skip_value(wire, buf@.subrange(pos as int, end as int)) {
            None => r is None,
            Some(n) => r == Some(n as usize),
        },
{
    if wire == WIRE_VARINT {
        match read_varint_at(buf, pos, end) {
            None => None,
            Some((_, n)) => Some(n),
        }
    } else if wire == WIRE_FIXED64 {
        if 8 <= end - pos {
            Some(8)
        } else {
            None
        }
    } else if wire == WIRE_FIXED32 {
        if 4 <= end - pos {
            Some(4)
        } else {
            None
        }
    } else if wire == WIRE_DELIMITED {
        match read_delimited_at(buf, pos, end, false) {
            None => None,
            Some((_, b)) => Some(b - pos),
        }
    } else {
        None
    }
}

/// The number of bytes taken by the rest of a group at `buf[pos..end]`.
pub fn skip_group_at(buf: &[u8], pos: usize, end: usize) -> (r: Option<usize>)
    requires
        pos <= end <= buf@.len(),
    ensures
        match skip_group(buf@.subrange(pos as int, end as int)) {
            None => r is None,
            Some(n) => r == Some(n as usize),
        },
{
    let ghost s = buf@.subrange(pos as int, end as int);
    let mut cur = pos;
    loop
        invariant
            pos <= cur <= end <= buf@.len(),
            s == buf@.subrange(pos as int, end as int),
            match skip_group(buf@.subrange(cur as int, end as int)) {
                None => skip_group(s) is None,
                Some(k) => skip_group(s) == Some(((cur - pos) + k) as nat),
            },
        decreases end - cur,
    {
        let ghost t = buf@.subrange(cur as int, end as int);
        proof {
            lemma_read_tag_bounds(t);
        }
        match read_tag_at(buf, cur, end) {
            None => {
                return None;
            },
            Some((_, wire, n)) => {
                if wire == WIRE_END_GROUP {
                    return Some(cur + n - pos);
                }
                proof {
                    lemma_subrange_skip(buf@, cur as int, end as int, n as int);
                    lemma_skip_value_bounds(wire, t.skip(n as int));
                }
                match skip_value_at(wire, buf, cur + n, end) {
                    None => {
                        return None;
                    },
                    Some(m) => {
                        proof {
                            lemma_subrange_skip(buf@, cur as int, end as int, (n + m) as int);
                        }
                        cur = cur + n + m;
                    },
                }
            },
        }
    }
}

/// The number of bytes taken by the value of an unknown field at `buf[pos..end]`.
pub fn skip_unknown_at(wire: u32, buf: &[u8], pos: usize, end: usize) -> (r: Option<usize>)
    requires
        pos <= end <= buf@.len(),
    ensures
        match skip_unknown(wire, buf@.subrange(pos as int, end as int)) {
            None => r is None,
            Some(n) => r == Some(n as usize),
        },
{
    if wire == WIRE_START_GROUP {
        skip_group_at(buf, pos, end)
    } else {
        skip_value_at(wire, buf, pos, end)
    }
}

} // verus!
