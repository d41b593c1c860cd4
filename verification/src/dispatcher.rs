//! Finds a method by service name and method name.

use vstd::prelude::*;

use crate::text::{push_str, str_eq, string_from_chars};

verus! {

/// The dispatcher cannot find the requested method.
#[derive(Clone, Debug, PartialEq, Eq)]
pub enum DispatchError {
    /// No service has this name.
    ServiceNotFound(String),
    /// The service (first) has no method of this name (second).
    MethodNotFound(String, String),
}

/// Abstract value of a [`DispatchError`].
pub enum DispatchErrorModel {
    ServiceNotFound(Seq<char>),
    MethodNotFound(Seq<char>, Seq<char>),
}

impl View for DispatchError {
    type V = DispatchErrorModel;

    open spec fn view(&self) -> DispatchErrorModel {
        match self {
            DispatchError::ServiceNotFound(s) => DispatchErrorModel::ServiceNotFound(s@),
            DispatchError::MethodNotFound(s, m) => DispatchErrorModel::MethodNotFound(s@, m@),
        }
    }
}

/// The message of a dispatch error.
pub open spec fn dispatch_error_text(e: DispatchErrorModel) -> Seq<char> {
    match e {
        DispatchErrorModel::ServiceNotFound(s) => "service "@ + s + " not found"@,
        DispatchErrorModel::MethodNotFound(s, m) => "method "@ + m + " not found in "@ + s,
    }
}

impl DispatchError {
    /// A short description of the kind of error.
    pub fn description(&self) -> (r: &'static str)
        ensures
            r@ == match self@ {
                DispatchErrorModel::ServiceNotFound(_) => "service not found"@,
                DispatchErrorModel::MethodNotFound(..) => "method not found"@,
            },
    {
        match self {
            DispatchError::ServiceNotFound(_) => "service not found",
            DispatchError::MethodNotFound(..) => "method not found",
        }
    }

    /// The message, naming the service and method.
    pub fn to_string(&self) -> (r: String)
        ensures
            r@ == dispatch_error_text(self@),
    {
        let mut out: Vec<char> = Vec::new();
        match self {
            DispatchError::ServiceNotFound(s) => {
                push_str(&mut out, "service ");
                push_str(&mut out, s.as_str());
                push_str(&mut out, " not found");
            },
            DispatchError::MethodNotFound(s, m) => {
                push_str(&mut out, "method ");
                push_str(&mut out, m.as_str());
                push_str(&mut out, " not found in ");
                push_str(&mut out, s.as_str());
            },
        }
        let r = string_from_chars(out.as_slice());
        assert(r@ =~= dispatch_error_text(self@));
        r
    }
}

/// The method registered last under `name` in `methods`.
pub open spec fn method_lookup<M>(methods: Seq<(Seq<char>, M)>, name: Seq<char>) -> Option<M>
    decreases methods.len(),
{
    if methods.len() == 0 {
        None
    } else if methods.last().0 == name {
        Some(methods.last().1)
    } else {
        method_lookup(methods.drop_last(), name)
    }
}

/// A registry as names of services, each with its list of named methods.
pub type RegistryModel<M> = Seq<(Seq<char>, Seq<(Seq<char>, M)>)>;

/// No two services share a name.
pub open spec fn distinct_services<M>(reg: RegistryModel<M>) -> bool {
    forall|i: int, j: int| 0 <= i < j < reg.len() ==> #[trigger] reg[i].0 != #[trigger] reg[j].0
}

/// True when a service of name `s` is registered.
pub open spec fn has_service<M>(reg: RegistryModel<M>, s: Seq<char>) -> bool {
    exists|i: int| 0 <= i < reg.len() && #[trigger] reg[i].0 == s
}

/// The place of service `s`, when it is registered.
pub open spec fn service_index<M>(reg: RegistryModel<M>, s: Seq<char>) -> int {
    choose|i: int| 0 <= i < reg.len() && #[trigger] reg[i].0 == s
}

/// The registry after registering `methods` as service `s`: an existing
/// service of that name is replaced in its place, a new one goes last.
pub open spec fn registry_insert<M>(reg: RegistryModel<M>, s: Seq<char>, methods: Seq<(Seq<char>, M)>) -> RegistryModel<M> {
    if has_service(reg, s) {
        reg.update(service_index(reg, s), (s, methods))
    } else {
        reg.push((s, methods))
    }
}

/// What looking up method `m` of service `s` gives.
pub enum LookupModel<M> {
    Found(M),
    ServiceNotFound,
    MethodNotFound,
}

/// Looking up method `m` of service `s`.
pub open spec fn registry_lookup<M>(reg: RegistryModel<M>, s: Seq<char>, m: Seq<char>) -> LookupModel<M> {
    if !has_service(reg, s) {
        LookupModel::ServiceNotFound
    } else {
        match method_lookup(reg[service_index(reg, s)].1, m) {
            None => LookupModel::MethodNotFound,
            Some(x) => LookupModel::Found(x),
        }
    }
}

/// Registers services and finds their methods by name.
///
/// A server is built from a registry; service providers add their services
/// to it.
#[derive(Debug)]
pub struct ServiceRegistry<M> {
    registry: Vec<(String, Vec<(String, M)>)>,
}

impl<M> View for ServiceRegistry<M> {
    type V = RegistryModel<M>;

    closed spec fn view(&self) -> RegistryModel<M> {
        self.registry@.map_values(
            |e: (String, Vec<(String, M)>)| (e.0@, e.1@.map_values(|p: (String, M)| (p.0@, p.1))),
        )
    }
}

/// The abstract list of a vector of named methods.
pub open spec fn methods_model<M>(v: Seq<(String, M)>) -> Seq<(Seq<char>, M)> {
    v.map_values(|p: (String, M)| (p.0@, p.1))
}

impl<M> ServiceRegistry<M> {
    #[verifier::type_invariant]
    spec fn names_are_distinct(self) -> bool {
        distinct_services(self@)
    }

    /// An empty registry.
    pub fn new() -> (r: Self)
        ensures
            r@ == RegistryModel::<M>::empty(),
            distinct_services(r@),
    {
        let r = ServiceRegistry { registry: Vec::new() };
        assert(r@ =~= RegistryModel::<M>::empty());
        r
    }

    /// The number of services.
    pub fn len(&self) -> (r: usize)
        ensures
            r == self@.len(),
            distinct_services(self@),
    {
        proof {
            use_type_invariant(self);
        }
        self.registry.len()
    }

    fn find_service(&self, s: &str) -> (r: Option<usize>)
        ensures
            match r {
                None => !has_service(self@, s@),
                Some(i) => i < self@.len() && self@[i as int].0 == s@ && service_index(self@, s@) == i,
            },
    {
        proof {
            use_type_invariant(self);
        }
        let mut i: usize = 0;
        while i < self.registry.len()
            invariant
                i <= self@.len(),
                self@.len() == self.registry@.len(),
                distinct_services(self@),
                forall|j: int| 0 <= j < i ==> self@[j].0 != s@,
            decreases self@.len() - i,
        {
            if str_eq(self.registry[i].0.as_str(), s) {
                assert(self@[i as int].0 == s@);
                assert(has_service(self@, s@));
                let ghost c = service_index(self@, s@);
                assert(self@[c].0 == s@);
                return Some(i);
            }
            i = i + 1;
        }
        None
    }

    /// Registers `methods` as the service `name`, replacing a service of the
    /// same name. Of methods that share a name, the last one is found.
    pub fn register_methods(&mut self, name: String, methods: Vec<(String, M)>)
        ensures
            final(self)@ == registry_insert(old(self)@, name@, methods_model(methods@)),
            distinct_services(old(self)@),
            distinct_services(final(self)@),
    {
        proof {
            use_type_invariant(&*self);
        }
        let ghost reg = self@;
        let ghost ms = methods_model(methods@);
        let found = self.find_service(name.as_str());
        let mut entries: Vec<(String, Vec<(String, M)>)> = Vec::new();
        std::mem::swap(&mut entries, &mut self.registry);
        let ghost name_v = name@;
        match found {
            Some(i) => {
                entries.set(i, (name, methods));
            },
            None => {
                entries.push((name, methods));
            },
        }
        proof {
            let ne = entries@.map_values(
                |e: (String, Vec<(String, M)>)| (e.0@, e.1@.map_values(|p: (String, M)| (p.0@, p.1))),
            );
            assert(ne =~= registry_insert(reg, name_v, ms));
            assert forall|a: int, b: int| 0 <= a < b < ne.len() implies #[trigger] ne[a].0
                != #[trigger] ne[b].0 by {
                if found is Some && (a == found->0 || b == found->0) {
                    assert(reg[found->0 as int].0 == name_v);
                } else if found is None && b == reg.len() {
                    assert(ne[a] == reg[a]);
                } else {
                    assert(ne[a] == reg[a] && ne[b] == reg[b]);
                }
            }
        }
        self.registry = entries;
        proof {
            use_type_invariant(&*self);
        }
    }

    /// Registers the service of `registrant` under its name: the methods
    /// that the registrant lists become the service of the name it gives.
    pub fn register_service<T: NamedRegistrant<M>>(&mut self, registrant: T)
        ensures
            exists|n: &'static str, v: Vec<(String, M)>|
                #[trigger] call_ensures(T::name, (), n) && #[trigger] call_ensures(T::methods, (&registrant,), v)
                    && final(self)@ == registry_insert(old(self)@, n@, methods_model(v@)),
            distinct_services(old(self)@),
            distinct_services(final(self)@),
    {
        proof {
            use_type_invariant(&*self);
        }
        let methods = registrant.methods();
        let ghost v = methods;
        let name = T::name();
        let mut chars: Vec<char> = Vec::new();
        push_str(&mut chars, name);
        let owned = string_from_chars(chars.as_slice());
        self.register_methods(owned, methods);
        assert(call_ensures(T::name, (), name) && call_ensures(T::methods, (&registrant,), v)
            && self@ == registry_insert(old(self)@, name@, methods_model(v@)));
    }

    /// Finds method `method_name` of service `service_name`.
    pub fn get_method(&self, service_name: String, method_name: String) -> (r: Result<&M, DispatchError>)
        ensures
            distinct_services(self@),
            match registry_lookup(self@, service_name@, method_name@) {
                LookupModel::Found(x) => r matches Ok(y) && *y == x,
                LookupModel::ServiceNotFound => r matches Err(e) && e@ == DispatchErrorModel::ServiceNotFound(
                    service_name@,
                ),
                LookupModel::MethodNotFound => r matches Err(e) && e@ == DispatchErrorModel::MethodNotFound(
                    service_name@,
                    method_name@,
                ),
            },
    {
        proof {
            use_type_invariant(self);
        }
        match self.find_service(service_name.as_str()) {
            None => Err(DispatchError::ServiceNotFound(service_name)),
            Some(i) => {
                let methods = &self.registry[i].1;
                match find_method(methods, method_name.as_str()) {
                    None => Err(DispatchError::MethodNotFound(service_name, method_name)),
                    Some(k) => Ok(&methods[k].1),
                }
            },
        }
    }
}

/// The place of the method registered last under `name`.
fn find_method<M>(methods: &Vec<(String, M)>, name: &str) -> (r: Option<usize>)
    ensures
        match method_lookup(methods_model(methods@), name@) {
            None => r is None,
            Some(x) => r matches Some(k) && k < methods@.len() && methods@[k as int].1 == x,
        },
{
    let ghost ms = methods_model(methods@);
    let mut i: usize = methods.len();
    assert(ms.subrange(0, i as int) =~= ms);
    while i > 0
        invariant
            i <= methods@.len(),
            ms == methods_model(methods@),
            method_lookup(ms, name@) == method_lookup(ms.subrange(0, i as int), name@),
        decreases i,
    {
        let ghost pre = ms.subrange(0, i as int);
        assert(pre.drop_last() =~= ms.subrange(0, i - 1));
        if str_eq(methods[i - 1].0.as_str(), name) {
            return Some(i - 1);
        }
        i = i - 1;
    }
    assert(ms.subrange(0, 0) =~= Seq::<(Seq<char>, M)>::empty());
    None
}

/// Links method names with methods; the code generator implements it for
/// each service.
pub trait Registrant<M> {
    /// The name-method pairs of the service.
    fn methods(&self) -> Vec<(String, M)>;
}

/// Links a service name to a registrant; the code generator implements it
/// for each service.
pub trait NamedRegistrant<M>: Registrant<M> {
    /// The service name.
    fn name() -> &'static str;
}

/// A fresh registry has no service: every lookup reports the service as
/// not found.
pub proof fn lemma_empty_registry_finds_nothing<M>(s: Seq<char>, m: Seq<char>)
    ensures
        registry_lookup(RegistryModel::<M>::empty(), s, m) == LookupModel::<M>::ServiceNotFound,
{
}

/// Registering a service makes each of its methods (the last one of each
/// name) the one found under the service's name, and leaves every other
/// service as it was.
pub proof fn lemma_lookup_after_register<M>(
    reg: RegistryModel<M>,
    s: Seq<char>,
    methods: Seq<(Seq<char>, M)>,
    s2: Seq<char>,
    m: Seq<char>,
)
    requires
        distinct_services(reg),
    ensures
        registry_lookup(registry_insert(reg, s, methods), s2, m) == if s2 == s {
            match method_lookup(methods, m) {
                None => LookupModel::MethodNotFound,
                Some(x) => LookupModel::Found(x),
            }
        } else {
            registry_lookup(reg, s2, m)
        },
{
    let r2 = registry_insert(reg, s, methods);
    if has_service(reg, s) {
        let i = service_index(reg, s);
        assert(r2[i].0 == s);
        assert(has_service(r2, s));
        let c = service_index(r2, s);
        assert(r2[c].0 == s);
        if c != i {
            assert(reg[c].0 == s);
        }
        if s2 != s {
            if has_service(reg, s2) {
                let j = service_index(reg, s2);
                assert(r2[j] == reg[j]);
                assert(has_service(r2, s2));
                let d = service_index(r2, s2);
                assert(r2[d].0 == s2);
                assert(d != i);
                assert(reg[d].0 == s2);
            } else {
                if has_service(r2, s2) {
                    let d = service_index(r2, s2);
                    assert(r2[d].0 == s2);
                    assert(reg[d].0 == s2);
                }
            }
        }
    } else {
        let n = reg.len() as int;
        assert(r2[n].0 == s);
        assert(has_service(r2, s));
        let c = service_index(r2, s);
        assert(r2[c].0 == s);
        if c != n {
            assert(reg[c].0 == s);
        }
        if s2 != s {
            if has_service(reg, s2) {
                let j = service_index(reg, s2);
                assert(r2[j] == reg[j]);
                assert(has_service(r2, s2));
                let d = service_index(r2, s2);
                assert(r2[d].0 == s2);
                assert(d != n);
                assert(reg[d].0 == s2);
            } else {
                if has_service(r2, s2) {
                    let d = service_index(r2, s2);
                    assert(r2[d].0 == s2);
                    assert(d != n);
                    assert(reg[d].0 == s2);
                }
            }
        }
    }
}

/// The method found under a name is the one registered last under it.
pub proof fn lemma_method_lookup_last<M>(methods: Seq<(Seq<char>, M)>, name: Seq<char>, x: M)
    ensures
        method_lookup(methods.push((name, x)), name) == Some(x),
{
    assert(methods.push((name, x)).drop_last() =~= methods);
}

} // verus!
