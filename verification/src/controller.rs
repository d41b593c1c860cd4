//! Per-request details that a service provider can read and set, mostly
//! for requests that arrive over http.

use vstd::prelude::*;

use crate::protocol::http::HttpStatus;
use crate::text::str_eq;

verus! {

/// True when no two entries share a key.
pub open spec fn distinct_keys(h: Seq<(Seq<char>, Seq<char>)>) -> bool {
    forall|i: int, j: int| 0 <= i < j < h.len() ==> #[trigger] h[i].0 != #[trigger] h[j].0
}

/// True when some entry has key `k`.
pub open spec fn has_key(h: Seq<(Seq<char>, Seq<char>)>, k: Seq<char>) -> bool {
    exists|i: int| 0 <= i < h.len() && #[trigger] h[i].0 == k
}

/// The position of key `k`, when some entry has it.
pub open spec fn key_index(h: Seq<(Seq<char>, Seq<char>)>, k: Seq<char>) -> int {
    choose|i: int| 0 <= i < h.len() && #[trigger] h[i].0 == k
}

/// The value stored under `k`.
pub open spec fn header_lookup(h: Seq<(Seq<char>, Seq<char>)>, k: Seq<char>) -> Option<Seq<char>> {
    if has_key(h, k) {
        Some(h[key_index(h, k)].1)
    } else {
        None
    }
}

/// Stores `v` under `k`: an existing entry keeps its place and takes the new
/// value, a new key goes last.
pub open spec fn header_insert(h: Seq<(Seq<char>, Seq<char>)>, k: Seq<char>, v: Seq<char>) -> Seq<
    (Seq<char>, Seq<char>),
> {
    if has_key(h, k) {
        h.update(key_index(h, k), (k, v))
    } else {
        h.push((k, v))
    }
}

/// A map from header names to values, without order semantics beyond the
/// order in which new names arrived.
#[derive(Debug, PartialEq, Eq)]
pub struct HeaderMap {
    entries: Vec<(String, String)>,
}

impl View for HeaderMap {
    type V = Seq<(Seq<char>, Seq<char>)>;

    closed spec fn view(&self) -> Seq<(Seq<char>, Seq<char>)> {
        self.entries@.map_values(|e: (String, String)| (e.0@, e.1@))
    }
}

impl HeaderMap {
    #[verifier::type_invariant]
    spec fn keys_are_distinct(self) -> bool {
        distinct_keys(self@)
    }

    /// An empty map.
    pub fn new() -> (r: Self)
        ensures
            r@ == Seq::<(Seq<char>, Seq<char>)>::empty(),
    {
        let r = HeaderMap { entries: Vec::new() };
        assert(r@ =~= Seq::<(Seq<char>, Seq<char>)>::empty());
        r
    }

    /// The number of entries.
    pub fn len(&self) -> (r: usize)
        ensures
            r == self@.len(),
    {
        self.entries.len()
    }

    /// The name and value of entry `i`.
    pub fn entry_at(&self, i: usize) -> (r: (&String, &String))
        requires
            i < self@.len(),
        ensures
            r.0@ == self@[i as int].0,
            r.1@ == self@[i as int].1,
    {
        let e = &self.entries[i];
        (&e.0, &e.1)
    }

    fn find(&self, k: &str) -> (r: Option<usize>)
        ensures
            match r {
                None => !has_key(self@, k@),
                Some(i) => i < self@.len() && self@[i as int].0 == k@ && key_index(self@, k@) == i,
            },
    {
        proof {
            use_type_invariant(self);
        }
        let mut i: usize = 0;
        while i < self.entries.len()
            invariant
                i <= self@.len(),
                self@.len() == self.entries@.len(),
                distinct_keys(self@),
                forall|j: int| 0 <= j < i ==> self@[j].0 != k@,
            decreases self@.len() - i,
        {
            if str_eq(self.entries[i].0.as_str(), k) {
                assert(self@[i as int].0 == k@);
                assert(has_key(self@, k@));
                let ghost c = key_index(self@, k@);
                assert(self@[c].0 == k@);
                assert(c == i);
                return Some(i);
            }
            i = i + 1;
        }
        None
    }

    /// The value stored under `k`.
    pub fn get(&self, k: &str) -> (r: Option<&String>)
        ensures
            match header_lookup(self@, k@) {
                None => r is None,
                Some(v) => r matches Some(x) && x@ == v,
            },
    {
        match self.find(k) {
            None => None,
            Some(i) => Some(&self.entries[i].1),
        }
    }

    /// True when some entry has name `k`.
    pub fn contains_key(&self, k: &str) -> (r: bool)
        ensures
            r == has_key(self@, k@),
    {
        self.find(k).is_some()
    }

    /// Stores `v` under `k`, returning the value it replaces.
    pub fn insert(&mut self, k: String, v: String) -> (r: Option<String>)
        ensures
            final(self)@ == header_insert(old(self)@, k@, v@),
            match header_lookup(old(self)@, k@) {
                None => r is None,
                Some(x) => r matches Some(y) && y@ == x,
            },
    {
        proof {
            use_type_invariant(&*self);
        }
        let ghost h = self@;
        match self.find(k.as_str()) {
            Some(i) => {
                let mut entries: Vec<(String, String)> = Vec::new();
                std::mem::swap(&mut entries, &mut self.entries);
                let old_v = entries[i].1.clone();
                entries.set(i, (k, v));
                proof {
                    let ne = entries@.map_values(|e: (String, String)| (e.0@, e.1@));
                    assert(ne =~= header_insert(h, k@, v@));
                    assert forall|a: int, b: int| 0 <= a < b < ne.len() implies #[trigger] ne[a].0
                        != #[trigger] ne[b].0 by {
                        if a == i || b == i {
                            assert(h[i as int].0 == k@);
                        } else {
                            assert(ne[a] == h[a] && ne[b] == h[b]);
                        }
                    }
                }
                self.entries = entries;
                Some(old_v)
            },
            None => {
                let mut entries: Vec<(String, String)> = Vec::new();
                std::mem::swap(&mut entries, &mut self.entries);
                entries.push((k, v));
                proof {
                    let ne = entries@.map_values(|e: (String, String)| (e.0@, e.1@));
                    assert(ne =~= header_insert(h, k@, v@));
                    assert forall|a: int, b: int| 0 <= a < b < ne.len() implies #[trigger] ne[a].0
                        != #[trigger] ne[b].0 by {
                        if b == h.len() {
                            assert(ne[a] == h[a]);
                            assert(ne[b].0 == k@);
                        } else {
                            assert(ne[a] == h[a] && ne[b] == h[b]);
                        }
                    }
                }
                self.entries = entries;
                None
            },
        }
    }

    /// A copy of the map.
    pub fn duplicate(&self) -> (r: Self)
        ensures
            r@ == self@,
    {
        proof {
            use_type_invariant(self);
        }
        let mut entries: Vec<(String, String)> = Vec::new();
        let mut i: usize = 0;
        while i < self.entries.len()
            invariant
                i <= self@.len(),
                self@.len() == self.entries@.len(),
                distinct_keys(self@),
                entries@.map_values(|e: (String, String)| (e.0@, e.1@)) =~= self@.subrange(0, i as int),
            decreases self@.len() - i,
        {
            let e = &self.entries[i];
            let a = e.0.clone();
            let b = e.1.clone();
            let ghost prev = entries@;
            entries.push((a, b));
            proof {
                assert(self@[i as int] == (self.entries@[i as int].0@, self.entries@[i as int].1@));
                assert(entries@.map_values(|e: (String, String)| (e.0@, e.1@)) =~= prev.map_values(
                    |e: (String, String)| (e.0@, e.1@),
                ).push((a@, b@)));
            }
            i = i + 1;
            assert(entries@.map_values(|e: (String, String)| (e.0@, e.1@)) =~= self@.subrange(0, i as int));
        }
        assert(self@.subrange(0, self@.len() as int) =~= self@);
        HeaderMap { entries }
    }
}

/// Details of a request and of its response that go beyond the message.
#[derive(Debug, PartialEq)]
pub struct Controller {
    /// Request target in an http message.
    pub http_url: Option<String>,
    /// Http headers.
    pub headers: HeaderMap,
    /// Http status of the response.
    pub status: Option<HttpStatus>,
    /// Request body in raw bytes.
    pub request_body: Vec<u8>,
    /// Response body in raw bytes.
    pub response_body: Vec<u8>,
}

/// Abstract value of a [`Controller`].
pub struct ControllerModel {
    pub http_url: Option<Seq<char>>,
    pub headers: Seq<(Seq<char>, Seq<char>)>,
    pub status: Option<HttpStatus>,
    pub request_body: Seq<u8>,
    pub response_body: Seq<u8>,
}

impl View for Controller {
    type V = ControllerModel;

    open spec fn view(&self) -> ControllerModel {
        ControllerModel {
            http_url: match self.http_url {
                Some(u) => Some(u@),
                None => None,
            },
            headers: self.headers@,
            status: self.status,
            request_body: self.request_body@,
            response_body: self.response_body@,
        }
    }
}

/// The controller of a request that carries no details.
pub open spec fn default_controller() -> ControllerModel {
    ControllerModel {
        http_url: None,
        headers: Seq::empty(),
        status: None,
        request_body: Seq::empty(),
        response_body: Seq::empty(),
    }
}

impl Default for Controller {
    fn default() -> (r: Self)
        ensures
            r@ == default_controller(),
    {
        Controller {
            http_url: None,
            headers: HeaderMap::new(),
            status: None,
            request_body: Vec::new(),
            response_body: Vec::new(),
        }
    }
}

impl Clone for Controller {
    fn clone(&self) -> (r: Self)
        ensures
            r@ == self@,
    {
        Controller {
            http_url: match &self.http_url {
                Some(u) => Some(u.clone()),
                None => None,
            },
            headers: self.headers.duplicate(),
            status: self.status,
            request_body: self.request_body.clone(),
            response_body: self.response_body.clone(),
        }
    }
}

impl Controller {
    /// Sets the `Content-Type` http header.
    pub fn set_content_type(&mut self, s: &str)
        ensures
            final(self)@ == (ControllerModel {
                headers: header_insert(old(self)@.headers, "Content-Type"@, s@),
                ..old(self)@
            }),
    {
        self.headers.insert("Content-Type".to_string(), s.to_string());
    }
}

} // verus!
