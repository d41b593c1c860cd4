//! The code generator's own logic: which `.proto` files to generate code
//! for, relative to their include directories, and the header of each
//! generated file.

use vstd::prelude::*;

use crate::generator::NameError;
use crate::text::{push_str, str_chars, string_from_chars};

verus! {

/// What the code generator is asked to do.
#[derive(Debug, Default)]
pub struct Args<'a> {
    /// Where the generated files go.
    pub out_dir: &'a str,
    /// The directories that hold the `.proto` files and their imports.
    pub includes: &'a [&'a str],
    /// The `.proto` files to compile.
    pub input: &'a [&'a str],
    /// Also generate the protobuf message code, not only the services and
    /// stubs.
    pub rust_protobuf: bool,
}

/// `c` separates path components.
pub open spec fn is_separator(c: char) -> bool {
    c == '/' || c == '\\'
}

/// `p` without a leading `./` (or `.\`); the path `.` itself becomes empty.
pub open spec fn dot_slash_removed(p: Seq<char>) -> Seq<char> {
    if p == seq!['.'] {
        Seq::empty()
    } else if p.len() >= 2 && p[0] == '.' && is_separator(p[1]) {
        p.skip(2)
    } else {
        p
    }
}

/// `q` without one trailing separator.
pub open spec fn trailing_separator_removed(q: Seq<char>) -> Seq<char> {
    if q.len() > 0 && is_separator(q.last()) {
        q.drop_last()
    } else {
        q
    }
}

/// `path` relative to the directory `prefix`: `None` when the path does not
/// lie below it. An empty prefix (or `.`) leaves the path as it is.
pub open spec fn path_below(path: Seq<char>, prefix: Seq<char>) -> Option<Seq<char>> {
    let p = dot_slash_removed(path);
    let q0 = dot_slash_removed(prefix);
    if q0.len() == 0 {
        Some(p)
    } else {
        let q = trailing_separator_removed(q0);
        if !(p.len() >= q.len() && p.take(q.len() as int) == q) {
            None
        } else if p.len() <= q.len() {
            None
        } else if is_separator(p[q.len() as int]) {
            Some(p.skip(q.len() as int + 1))
        } else {
            None
        }
    }
}

/// Strips a leading `./` (or `.\`) from `path`; `.` becomes empty.
pub fn remove_dot_slash(path: &str) -> (r: String)
    ensures
        r@ == dot_slash_removed(path@),
{
    let cs = str_chars(path);
    let n = cs.len();
    if n == 1 && cs[0] == '.' {
        assert(path@ =~= seq!['.']);
        return string_from_chars(&[]);
    }
    if n >= 2 && cs[0] == '.' && (cs[1] == '/' || cs[1] == '\\') {
        assert(path@ != seq!['.']);
        let mut out: Vec<char> = Vec::new();
        let mut i: usize = 2;
        while i < n
            invariant
                2 <= i <= n,
                n == cs@.len(),
                out@ == cs@.subrange(2, i as int),
            decreases n - i,
        {
            out.push(cs[i]);
            i = i + 1;
            assert(out@ =~= cs@.subrange(2, i as int));
        }
        assert(out@ =~= path@.skip(2));
        return string_from_chars(out.as_slice());
    }
    if n == 1 {
        assert(path@ != seq!['.']) by {
            if path@ == seq!['.'] {
                assert(path@[0] == '.');
            }
        }
    }
    string_from_chars(cs.as_slice())
}

/// `path` relative to the include directory `prefix`, or `None` when it
/// does not lie below it.
pub fn remove_path_prefix(path: &str, prefix: &str) -> (r: Option<String>)
    ensures
        match path_below(path@, prefix@) {
            None => r is None,
            Some(x) => r matches Some(y) && y@ == x,
        },
{
    let p_s = remove_dot_slash(path);
    let q_s = remove_dot_slash(prefix);
    let p = str_chars(p_s.as_str());
    let q0 = str_chars(q_s.as_str());
    if q0.len() == 0 {
        return Some(string_from_chars(p.as_slice()));
    }
    let mut qn = q0.len();
    if q0[qn - 1] == '/' || q0[qn - 1] == '\\' {
        qn = qn - 1;
    }
    let ghost q = trailing_separator_removed(q0@);
    assert(q =~= q0@.subrange(0, qn as int));
    if p.len() < qn {
        return None;
    }
    let mut i: usize = 0;
    while i < qn
        invariant
            i <= qn <= q0@.len(),
            qn <= p@.len(),
            q == q0@.subrange(0, qn as int),
            p@ == dot_slash_removed(path@),
            q0@ == dot_slash_removed(prefix@),
            q0@.len() > 0,
            q == trailing_separator_removed(q0@),
            forall|k: int| 0 <= k < i ==> p@[k] == q0@[k],
        decreases qn - i,
    {
        if p[i] != q0[i] {
            assert(p@.take(qn as int)[i as int] != q[i as int]);
            assert(p@.take(qn as int) != q);
            return None;
        }
        i = i + 1;
    }
    assert(p@.take(qn as int) =~= q);
    if p.len() <= qn {
        return None;
    }
    if p[qn] == '/' || p[qn] == '\\' {
        let mut out: Vec<char> = Vec::new();
        let mut j: usize = qn + 1;
        while j < p.len()
            invariant
                qn + 1 <= j <= p@.len(),
                out@ == p@.subrange(qn + 1, j as int),
            decreases p@.len() - j,
        {
            out.push(p[j]);
            j = j + 1;
            assert(out@ =~= p@.subrange(qn + 1, j as int));
        }
        assert(out@ =~= p@.skip(qn + 1));
        Some(string_from_chars(out.as_slice()))
    } else {
        None
    }
}

/// Why the files to generate could not be found.
#[derive(Debug, PartialEq, Eq)]
pub enum GenerateError {
    /// The input file (its path) lies below none of the include
    /// directories.
    NotInIncludes(String),
    /// The descriptor set does not parse.
    BadDescriptor,
    /// The descriptor set has no file of this name.
    NotInDescriptor(String),
    /// A method's message is not a message of the descriptor set.
    UnknownMessage,
    /// The file of this name declares services but is not a `.proto` file.
    NotProtoFile(String),
    /// A service cannot be generated: a method name is not in snake case.
    BadName(NameError),
}

/// The first directory of `includes` that `file` lies below gives its path
/// relative to it.
pub open spec fn relative_path(file: Seq<char>, includes: Seq<Seq<char>>) -> Option<Seq<char>>
    decreases includes.len(),
{
    if includes.len() == 0 {
        None
    } else {
        match path_below(file, includes[0]) {
            Some(x) => Some(x),
            None => relative_path(file, includes.drop_first()),
        }
    }
}

/// The include directories in effect: `.` when none are given.
pub open spec fn effective_includes(includes: Seq<Seq<char>>) -> Seq<Seq<char>> {
    if includes.len() == 0 {
        seq![seq!['.']]
    } else {
        includes
    }
}

fn relative_to_includes(file: &str, includes: &Vec<String>) -> (r: Option<String>)
    ensures
        match relative_path(file@, includes@.map_values(|s: String| s@)) {
            None => r is None,
            Some(x) => r matches Some(y) && y@ == x,
        },
{
    let ghost all = includes@.map_values(|s: String| s@);
    assert(all.skip(0) =~= all);
    let mut i: usize = 0;
    while i < includes.len()
        invariant
            i <= includes@.len(),
            all == includes@.map_values(|s: String| s@),
            relative_path(file@, all) == relative_path(file@, all.skip(i as int)),
        decreases includes@.len() - i,
    {
        let ghost rest = all.skip(i as int);
        assert(rest[0] == includes@[i as int]@);
        assert(rest.drop_first() =~= all.skip(i + 1));
        match remove_path_prefix(file, includes[i].as_str()) {
            Some(x) => {
                return Some(x);
            },
            None => {},
        }
        i = i + 1;
    }
    assert(all.skip(i as int) =~= Seq::<Seq<char>>::empty());
    None
}

/// The paths of the `input` files relative to the first include directory
/// each lies below, in order; `.` stands for an empty list of includes.
pub fn files_to_generate(input: &[&str], includes: &[&str]) -> (r: Result<Vec<String>, GenerateError>)
    ensures
        ({
            let incs = effective_includes(includes@.map_values(|s: &str| s@));
            match r {
                Ok(v) => v@.len() == input@.len() && forall|k: int|
                    0 <= k < input@.len() ==> relative_path(input@[k]@, incs) == Some(
                        #[trigger] v@[k]@,
                    ),
                Err(GenerateError::NotInIncludes(f)) => exists|k: int|
                    0 <= k < input@.len() && #[trigger] input@[k]@ == f@ && relative_path(f@, incs) is None
                        && forall|j: int| 0 <= j < k ==> relative_path(input@[j]@, incs) is Some,
                Err(_) => false,
            }
        }),
{
    let mut incs: Vec<String> = Vec::new();
    if includes.len() == 0 {
        let dot: &str = ".";
        proof {
            reveal_strlit(".");
        }
        assert(dot@ =~= seq!['.']);
        incs.push(dot.to_owned());
        assert(incs@.map_values(|s: String| s@) =~= seq![seq!['.']]);
    } else {
        let mut i: usize = 0;
        while i < includes.len()
            invariant
                i <= includes@.len(),
                incs@.map_values(|s: String| s@) =~= includes@.map_values(|s: &str| s@).subrange(
                    0,
                    i as int,
                ),
            decreases includes@.len() - i,
        {
            let ghost before = incs@.map_values(|s: String| s@);
            incs.push(includes[i].to_owned());
            assert(incs@.map_values(|s: String| s@) =~= before.push(includes@[i as int]@));
            i = i + 1;
            assert(includes@.map_values(|s: &str| s@).subrange(0, i as int) =~= includes@.map_values(
                |s: &str| s@,
            ).subrange(0, i - 1).push(includes@[i - 1]@));
        }
        assert(includes@.map_values(|s: &str| s@).subrange(0, i as int) =~= includes@.map_values(
            |s: &str| s@,
        ));
    }
    let ghost want = effective_includes(includes@.map_values(|s: &str| s@));
    assert(incs@.map_values(|s: String| s@) =~= want);
    let mut out: Vec<String> = Vec::new();
    let mut k: usize = 0;
    while k < input.len()
        invariant
            k <= input@.len(),
            incs@.map_values(|s: String| s@) == want,
            want == effective_includes(includes@.map_values(|s: &str| s@)),
            out@.len() == k,
            forall|j: int| 0 <= j < k ==> relative_path(input@[j]@, want) == Some(#[trigger] out@[j]@),
        decreases input@.len() - k,
    {
        match relative_to_includes(input[k], &incs) {
            Some(x) => {
                out.push(x);
            },
            None => {
                let f = input[k].to_owned();
                assert(input@[k as int]@ == f@);
                assert forall|j: int| 0 <= j < k implies relative_path(input@[j]@, want) is Some by {
                    assert(relative_path(input@[j]@, want) == Some(out@[j]@));
                }
                return Err(GenerateError::NotInIncludes(f));
            },
        }
        k = k + 1;
    }
    Ok(out)
}

/// The first lines of every generated file.
pub open spec fn file_header() -> Seq<char> {
    "// This file is generated, Do not edit\n// @generated\n\n#![cfg_attr(rustfmt, rustfmt_skip)]\n#![allow(missing_docs)]\n#![allow(dead_code)]\n"@
}

/// The first lines of every generated file: a note that it is generated,
/// and the attributes that keep formatters and lints off it.
pub fn generate_file_header() -> (r: String)
    ensures
        r@ == file_header(),
{
    let mut out: Vec<char> = Vec::new();
    push_str(
        &mut out,
        "// This file is generated, Do not edit\n// @generated\n\n#![cfg_attr(rustfmt, rustfmt_skip)]\n#![allow(missing_docs)]\n#![allow(dead_code)]\n",
    );
    assert(out@ =~= file_header());
    string_from_chars(out.as_slice())
}

/// A path relative to a directory, joined back onto the directory, gives
/// the path (without its leading `./`).
pub proof fn lemma_path_below_joins(path: Seq<char>, prefix: Seq<char>)
    requires
        dot_slash_removed(prefix).len() > 0,
        path_below(path, prefix) is Some,
    ensures
        ({
            let q = trailing_separator_removed(dot_slash_removed(prefix));
            let rel = path_below(path, prefix)->Some_0;
            &&& dot_slash_removed(path).len() == q.len() + 1 + rel.len()
            &&& dot_slash_removed(path) == q + seq![dot_slash_removed(path)[q.len() as int]] + rel
            &&& is_separator(dot_slash_removed(path)[q.len() as int])
        }),
{
    let p = dot_slash_removed(path);
    let q = trailing_separator_removed(dot_slash_removed(prefix));
    assert(p =~= q + seq![p[q.len() as int]] + p.skip(q.len() as int + 1));
}

} // verus!
