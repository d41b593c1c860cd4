//! The code generator's templates: from the description of a service,
//! the text of its provider trait, its registrant and its client stub.

use inflector::Inflector;
use vstd::prelude::*;

use crate::codegen::file_header;
use crate::text::{push_str, string_from_chars};

verus! {

/// A method of a service: its name and the Rust paths of its request and
/// response messages.
#[derive(Clone, Debug, PartialEq, Eq)]
pub struct MethodSpec {
    /// The method name.
    pub name: String,
    /// The Rust path of the request message.
    pub input_type: String,
    /// The Rust path of the response message.
    pub output_type: String,
}

/// A service: its name and its methods.
#[derive(Clone, Debug, PartialEq, Eq)]
pub struct ServiceSpec {
    /// The service name.
    pub name: String,
    /// The methods, in order.
    pub methods: Vec<MethodSpec>,
}

/// Abstract value of a [`MethodSpec`]: name, request path, response path.
pub type MethodModel = (Seq<char>, Seq<char>, Seq<char>);

impl View for MethodSpec {
    type V = MethodModel;

    open spec fn view(&self) -> MethodModel {
        (self.name@, self.input_type@, self.output_type@)
    }
}

/// The methods of a service, abstractly.
pub open spec fn methods_of(s: ServiceSpec) -> Seq<MethodModel> {
    s.methods@.map_values(|m: MethodSpec| m@)
}

/// Why code cannot be generated for a service.
#[derive(Clone, Copy, Debug, PartialEq, Eq)]
pub enum NameError {
    /// A method name is not in snake case.
    NotSnakeCase,
}

impl NameError {
    /// The message.
    pub fn to_string(&self) -> (r: String)
        ensures
            r@ == "Method name should be snake_case"@,
    {
        let mut out: Vec<char> = Vec::new();
        push_str(&mut out, "Method name should be snake_case");
        string_from_chars(out.as_slice())
    }
}

/// Whether Inflector's `is_snake_case` holds of `s`.
pub uninterp spec fn snake_case_name(s: Seq<char>) -> bool;

/// What Inflector's `to_class_case` makes of `s`.
pub uninterp spec fn class_case_name(s: Seq<char>) -> Seq<char>;

/// `Inflector::is_snake_case`: whether the text is in snake case. The
/// answer depends on the text alone.
#[verifier::external_body]
fn is_snake_case(s: &str) -> (r: bool)
    ensures
        r == snake_case_name(s@),
{
    s.is_snake_case()
}

/// `Inflector::to_class_case`: the text in class case. The result depends
/// on the text alone.
#[verifier::external_body]
fn to_class_case(s: &str) -> (r: String)
    ensures
        r@ == class_case_name(s@),
{
    s.to_class_case()
}

/// The texts `f` gives for the items of `ms`, one after the other.
pub open spec fn concat_map<A>(ms: Seq<A>, f: spec_fn(A) -> Seq<char>) -> Seq<char>
    decreases ms.len(),
{
    if ms.len() == 0 {
        Seq::empty()
    } else {
        concat_map(ms.drop_last(), f) + f(ms.last())
    }
}

proof fn lemma_concat_map_step<A>(ms: Seq<A>, i: int, f: spec_fn(A) -> Seq<char>)
    requires
        0 <= i < ms.len(),
    ensures
        concat_map(ms.take(i + 1), f) == concat_map(ms.take(i), f) + f(ms[i]),
{
    assert(ms.take(i + 1).drop_last() =~= ms.take(i));
}

/// The name of the service's future for method `m`.
pub open spec fn future_name(m: Seq<char>) -> Seq<char> {
    class_case_name(m) + "Future"@
}

/// The name of the stub's field for method `m`.
pub open spec fn wrapper_name(m: Seq<char>) -> Seq<char> {
    m + "_wrapper"@
}

/// The path of message `t` seen from the generated module.
pub open spec fn message_path(t: Seq<char>) -> Seq<char> {
    "super::"@ + t
}

/// Every method name is in snake case.
pub open spec fn names_in_snake_case(ms: Seq<MethodModel>) -> bool {
    forall|i: int| 0 <= i < ms.len() ==> snake_case_name(#[trigger] ms[i].0)
}

/// The service name.
pub fn service_name(s: &ServiceSpec) -> (r: String)
    ensures
        r@ == s.name@,
{
    s.name.clone()
}

fn name_with(s: &ServiceSpec, suffix: &str) -> (r: String)
    ensures
        r@ == s.name@ + suffix@,
{
    let mut out: Vec<char> = Vec::new();
    push_str(&mut out, s.name.as_str());
    push_str(&mut out, suffix);
    assert(out@ =~= s.name@ + suffix@);
    string_from_chars(out.as_slice())
}

/// The name of the service's registrant.
pub fn registrant_name(s: &ServiceSpec) -> (r: String)
    ensures
        r@ == s.name@ + "Registrant"@,
{
    name_with(s, "Registrant")
}

/// The name of the service's provider trait.
pub fn trait_name(s: &ServiceSpec) -> (r: String)
    ensures
        r@ == s.name@ + "Service"@,
{
    name_with(s, "Service")
}

/// The name of the service's client stub.
pub fn stub_name(s: &ServiceSpec) -> (r: String)
    ensures
        r@ == s.name@ + "Stub"@,
{
    name_with(s, "Stub")
}

/// The method names, in order; every one must be in snake case.
pub fn method_names(s: &ServiceSpec) -> (r: Result<Vec<String>, NameError>)
    ensures
        names_in_snake_case(methods_of(*s)) ==> (r matches Ok(v) && v@.len() == s.methods@.len() && forall|i: int|
            0 <= i < v@.len() ==> (#[trigger] v@[i])@ == s.methods@[i].name@),
        !names_in_snake_case(methods_of(*s)) ==> r == Err::<Vec<String>, NameError>(NameError::NotSnakeCase),
{
    let ghost ms = methods_of(*s);
    let mut out: Vec<String> = Vec::new();
    let mut i: usize = 0;
    while i < s.methods.len()
        invariant
            i <= s.methods@.len(),
            ms == methods_of(*s),
            out@.len() == i,
            forall|k: int| 0 <= k < i ==> snake_case_name(#[trigger] ms[k].0),
            forall|k: int| 0 <= k < i ==> (#[trigger] out@[k])@ == s.methods@[k].name@,
        decreases s.methods@.len() - i,
    {
        let name = &s.methods[i].name;
        if !is_snake_case(name.as_str()) {
            assert(!snake_case_name(ms[i as int].0));
            return Err(NameError::NotSnakeCase);
        }
        out.push(name.clone());
        i = i + 1;
    }
    Ok(out)
}

/// The names of the futures of the provider trait, one per method.
pub fn future_names(s: &ServiceSpec) -> (r: Result<Vec<String>, NameError>)
    ensures
        names_in_snake_case(methods_of(*s)) ==> (r matches Ok(v) && v@.len() == s.methods@.len() && forall|i: int|
            0 <= i < v@.len() ==> (#[trigger] v@[i])@ == future_name(s.methods@[i].name@)),
        !names_in_snake_case(methods_of(*s)) ==> r == Err::<Vec<String>, NameError>(NameError::NotSnakeCase),
{
    let names = method_names(s)?;
    let mut out: Vec<String> = Vec::new();
    let mut i: usize = 0;
    while i < names.len()
        invariant
            i <= names@.len(),
            names@.len() == s.methods@.len(),
            forall|k: int| 0 <= k < names@.len() ==> (#[trigger] names@[k])@ == s.methods@[k].name@,
            out@.len() == i,
            forall|k: int| 0 <= k < i ==> (#[trigger] out@[k])@ == future_name(s.methods@[k].name@),
        decreases names@.len() - i,
    {
        let mut text: Vec<char> = Vec::new();
        let class = to_class_case(names[i].as_str());
        push_str(&mut text, class.as_str());
        push_str(&mut text, "Future");
        assert(text@ =~= future_name(s.methods@[i as int].name@));
        out.push(string_from_chars(text.as_slice()));
        i = i + 1;
    }
    Ok(out)
}

/// The names of the stub's fields, one per method.
pub fn wrapper_names(s: &ServiceSpec) -> (r: Result<Vec<String>, NameError>)
    ensures
        names_in_snake_case(methods_of(*s)) ==> (r matches Ok(v) && v@.len() == s.methods@.len() && forall|i: int|
            0 <= i < v@.len() ==> (#[trigger] v@[i])@ == wrapper_name(s.methods@[i].name@)),
        !names_in_snake_case(methods_of(*s)) ==> r == Err::<Vec<String>, NameError>(NameError::NotSnakeCase),
{
    let names = method_names(s)?;
    let mut out: Vec<String> = Vec::new();
    let mut i: usize = 0;
    while i < names.len()
        invariant
            i <= names@.len(),
            names@.len() == s.methods@.len(),
            forall|k: int| 0 <= k < names@.len() ==> (#[trigger] names@[k])@ == s.methods@[k].name@,
            out@.len() == i,
            forall|k: int| 0 <= k < i ==> (#[trigger] out@[k])@ == wrapper_name(s.methods@[k].name@),
        decreases names@.len() - i,
    {
        let mut text: Vec<char> = Vec::new();
        push_str(&mut text, names[i].as_str());
        push_str(&mut text, "_wrapper");
        assert(text@ =~= wrapper_name(s.methods@[i as int].name@));
        out.push(string_from_chars(text.as_slice()));
        i = i + 1;
    }
    Ok(out)
}

/// The paths of the request messages, one per method.
pub fn request_types(s: &ServiceSpec) -> (r: Vec<String>)
    ensures
        r@.len() == s.methods@.len(),
        forall|i: int| 0 <= i < r@.len() ==> (#[trigger] r@[i])@ == message_path(s.methods@[i].input_type@),
{
    let mut out: Vec<String> = Vec::new();
    let mut i: usize = 0;
    while i < s.methods.len()
        invariant
            i <= s.methods@.len(),
            out@.len() == i,
            forall|k: int| 0 <= k < i ==> (#[trigger] out@[k])@ == message_path(s.methods@[k].input_type@),
        decreases s.methods@.len() - i,
    {
        let mut text: Vec<char> = Vec::new();
        push_str(&mut text, "super::");
        push_str(&mut text, s.methods[i].input_type.as_str());
        assert(text@ =~= message_path(s.methods@[i as int].input_type@));
        out.push(string_from_chars(text.as_slice()));
        i = i + 1;
    }
    out
}

/// The paths of the response messages, one per method.
pub fn response_types(s: &ServiceSpec) -> (r: Vec<String>)
    ensures
        r@.len() == s.methods@.len(),
        forall|i: int| 0 <= i < r@.len() ==> (#[trigger] r@[i])@ == message_path(s.methods@[i].output_type@),
{
    let mut out: Vec<String> = Vec::new();
    let mut i: usize = 0;
    while i < s.methods.len()
        invariant
            i <= s.methods@.len(),
            out@.len() == i,
            forall|k: int| 0 <= k < i ==> (#[trigger] out@[k])@ == message_path(s.methods@[k].output_type@),
        decreases s.methods@.len() - i,
    {
        let mut text: Vec<char> = Vec::new();
        push_str(&mut text, "super::");
        push_str(&mut text, s.methods[i].output_type.as_str());
        assert(text@ =~= message_path(s.methods@[i as int].output_type@));
        out.push(string_from_chars(text.as_slice()));
        i = i + 1;
    }
    out
}

/// The declaration of the future `fut`, answering `resp`, in a provider trait.
pub open spec fn trait_future_text(fut: Seq<char>, resp: Seq<char>) -> Seq<char> {
    "\n    type "@ + fut + ": ::futures::Future<\n        Item = ("@ + resp + ", ::copra::controller::Controller), \n        Error = ::copra::service::ProviderSetError,\n    > + 'static;\n"@
}

fn push_trait_future(out: &mut Vec<char>, fut: &str, resp: &str)
    ensures
        final(out)@ == old(out)@ + trait_future_text(fut@, resp@),
{
    let ghost start = out@;
    push_str(out, "\n    type ");
    push_str(out, fut);
    push_str(out, ": ::futures::Future<\n        Item = (");
    push_str(out, resp);
    push_str(out, ", ::copra::controller::Controller), \n        Error = ::copra::service::ProviderSetError,\n    > + 'static;\n");
    assert(out@ =~= start + trait_future_text(fut@, resp@));
}

/// The declaration of method `name`, taking `req` and returning future `fut`, in a provider trait.
pub open spec fn trait_fn_text(name: Seq<char>, req: Seq<char>, fut: Seq<char>) -> Seq<char> {
    "\n    fn "@ + name + "(&self, msg: ("@ + req + ", ::copra::controller::Controller)) -> Self::"@ + fut + ";\n"@
}

fn push_trait_fn(out: &mut Vec<char>, name: &str, req: &str, fut: &str)
    ensures
        final(out)@ == old(out)@ + trait_fn_text(name@, req@, fut@),
{
    let ghost start = out@;
    push_str(out, "\n    fn ");
    push_str(out, name);
    push_str(out, "(&self, msg: (");
    push_str(out, req);
    push_str(out, ", ::copra::controller::Controller)) -> Self::");
    push_str(out, fut);
    push_str(out, ";\n");
    assert(out@ =~= start + trait_fn_text(name@, req@, fut@));
}

/// The registration of method `name` (request `req`, response `resp`, future `fut`) of the provider trait `t`.
pub open spec fn registrant_method_text(t: Seq<char>, name: Seq<char>, req: Seq<char>, resp: Seq<char>, fut: Seq<char>) -> Seq<char> {
    "\n        {\n            #[derive(Clone)]\n            struct Wrapper<S: Clone>(S);\n\n            impl<S> ::copra::service::Service for Wrapper<S>\n            where\n                S: "@ + t + " + Clone,\n            {\n                type Request = ("@ + req + ", ::copra::controller::Controller);\n                type Response = ("@ + resp + ", ::copra::controller::Controller);\n                type Error = ::copra::service::ProviderSetError;\n                type Future = <S as "@ + t + ">::"@ + fut + ";\n\n                fn call(&self, req: Self::Request) -> Self::Future {\n                    self.0."@ + name + "(req)\n                }\n            }\n\n            let wrap = Wrapper(provider.clone());\n            let method = ::copra::service::CodecMethodBundle::new(\n                ::copra::codec::ProtobufCodec::new(), wrap\n            );\n            let new_method = ::copra::service::NewUnifiedMethod::new(method);\n            entries.push((\n                \""@ + name + "\".to_string(), \n                Box::new(new_method) as ::copra::service::BoxedNewUnifiedMethod,\n            ));\n        }\n        "@
}

fn push_registrant_method(out: &mut Vec<char>, t: &str, name: &str, req: &str, resp: &str, fut: &str)
    ensures
        final(out)@ == old(out)@ + registrant_method_text(t@, name@, req@, resp@, fut@),
{
    let ghost start = out@;
    push_str(out, "\n        {\n            #[derive(Clone)]\n            struct Wrapper<S: Clone>(S);\n\n            impl<S> ::copra::service::Service for Wrapper<S>\n            where\n                S: ");
    push_str(out, t);
    push_str(out, " + Clone,\n            {\n                type Request = (");
    push_str(out, req);
    push_str(out, ", ::copra::controller::Controller);\n                type Response = (");
    push_str(out, resp);
    push_str(out, ", ::copra::controller::Controller);\n                type Error = ::copra::service::ProviderSetError;\n                type Future = <S as ");
    push_str(out, t);
    push_str(out, ">::");
    push_str(out, fut);
    push_str(out, ";\n\n                fn call(&self, req: Self::Request) -> Self::Future {\n                    self.0.");
    push_str(out, name);
    push_str(out, "(req)\n                }\n            }\n\n            let wrap = Wrapper(provider.clone());\n            let method = ::copra::service::CodecMethodBundle::new(\n                ::copra::codec::ProtobufCodec::new(), wrap\n            );\n            let new_method = ::copra::service::NewUnifiedMethod::new(method);\n            entries.push((\n                \"");
    push_str(out, name);
    push_str(out, "\".to_string(), \n                Box::new(new_method) as ::copra::service::BoxedNewUnifiedMethod,\n            ));\n        }\n        ");
    assert(out@ =~= start + registrant_method_text(t@, name@, req@, resp@, fut@));
}

/// The stub field `wrap` of a method taking `req` and answering `resp`.
pub open spec fn stub_field_text(wrap: Seq<char>, resp: Seq<char>, req: Seq<char>) -> Seq<char> {
    "\n    "@ + wrap + ": ::copra::stub::RpcWrapper<'a,\n        ::copra::codec::ProtobufCodec<"@ + resp + ", "@ + req + ">>,\n"@
}

fn push_stub_field(out: &mut Vec<char>, wrap: &str, resp: &str, req: &str)
    ensures
        final(out)@ == old(out)@ + stub_field_text(wrap@, resp@, req@),
{
    let ghost start = out@;
    push_str(out, "\n    ");
    push_str(out, wrap);
    push_str(out, ": ::copra::stub::RpcWrapper<'a,\n        ::copra::codec::ProtobufCodec<");
    push_str(out, resp);
    push_str(out, ", ");
    push_str(out, req);
    push_str(out, ">>,\n");
    assert(out@ =~= start + stub_field_text(wrap@, resp@, req@));
}

/// The initialization of the stub field `wrap`.
pub open spec fn stub_init_text(wrap: Seq<char>) -> Seq<char> {
    "\n            "@ + wrap + ": ::copra::stub::RpcWrapper::new(\n                ::copra::codec::ProtobufCodec::new(), channel\n            ),\n"@
}

fn push_stub_init(out: &mut Vec<char>, wrap: &str)
    ensures
        final(out)@ == old(out)@ + stub_init_text(wrap@),
{
    let ghost start = out@;
    push_str(out, "\n            ");
    push_str(out, wrap);
    push_str(out, ": ::copra::stub::RpcWrapper::new(\n                ::copra::codec::ProtobufCodec::new(), channel\n            ),\n");
    assert(out@ =~= start + stub_init_text(wrap@));
}

/// The stub method `name` of service `n`, taking `req`, answering `resp`, through field `wrap`.
pub open spec fn stub_method_text(n: Seq<char>, name: Seq<char>, req: Seq<char>, resp: Seq<char>, wrap: Seq<char>) -> Seq<char> {
    "\n    pub fn "@ + name + "(\n        &'a self, \n        msg: "@ + req + ",\n    ) -> ::copra::stub::StubFuture<\n        ::copra::codec::ProtobufCodec<\n            "@ + resp + ",\n            "@ + req + ",\n        >,\n    > {\n        self."@ + wrap + "\n            .call((msg, \""@ + n + "\".to_string(), \""@ + name + "\".to_string()))\n    }\n"@
}

fn push_stub_method(out: &mut Vec<char>, n: &str, name: &str, req: &str, resp: &str, wrap: &str)
    ensures
        final(out)@ == old(out)@ + stub_method_text(n@, name@, req@, resp@, wrap@),
{
    let ghost start = out@;
    push_str(out, "\n    pub fn ");
    push_str(out, name);
    push_str(out, "(\n        &'a self, \n        msg: ");
    push_str(out, req);
    push_str(out, ",\n    ) -> ::copra::stub::StubFuture<\n        ::copra::codec::ProtobufCodec<\n            ");
    push_str(out, resp);
    push_str(out, ",\n            ");
    push_str(out, req);
    push_str(out, ",\n        >,\n    > {\n        self.");
    push_str(out, wrap);
    push_str(out, "\n            .call((msg, \"");
    push_str(out, n);
    push_str(out, "\".to_string(), \"");
    push_str(out, name);
    push_str(out, "\".to_string()))\n    }\n");
    assert(out@ =~= start + stub_method_text(n@, name@, req@, resp@, wrap@));
}

/// The start of the provider trait `t`.
pub open spec fn trait_head_text(t: Seq<char>) -> Seq<char> {
    "pub trait "@ + t + " {"@
}

fn push_trait_head(out: &mut Vec<char>, t: &str)
    ensures
        final(out)@ == old(out)@ + trait_head_text(t@),
{
    let ghost start = out@;
    push_str(out, "pub trait ");
    push_str(out, t);
    push_str(out, " {");
    assert(out@ =~= start + trait_head_text(t@));
}

/// The registrant struct `r` and its constructor.
pub open spec fn registrant_basic_text(r: Seq<char>) -> Seq<char> {
    "\npub struct "@ + r + "<S> {\n    provider: S,\n}\n\nimpl<S> "@ + r + "<S> {\n    pub fn new(provider: S) -> Self {\n        "@ + r + " { provider }\n    }\n}"@
}

fn push_registrant_basic(out: &mut Vec<char>, r: &str)
    ensures
        final(out)@ == old(out)@ + registrant_basic_text(r@),
{
    let ghost start = out@;
    push_str(out, "\npub struct ");
    push_str(out, r);
    push_str(out, "<S> {\n    provider: S,\n}\n\nimpl<S> ");
    push_str(out, r);
    push_str(out, "<S> {\n    pub fn new(provider: S) -> Self {\n        ");
    push_str(out, r);
    push_str(out, " { provider }\n    }\n}");
    assert(out@ =~= start + registrant_basic_text(r@));
}

/// The start of the `Registrant` implementation of `r` for providers of `t`.
pub open spec fn registrant_head_text(r: Seq<char>, t: Seq<char>) -> Seq<char> {
    "\nimpl<S> ::copra::dispatcher::Registrant for "@ + r + "<S>\nwhere\n    S: "@ + t + " + Clone + Send + Sync + 'static,\n{\n    fn methods(&self) -> Vec<(String, ::copra::service::BoxedNewUnifiedMethod)> {\n        let mut entries = Vec::new();\n        let provider = &self.provider;\n    "@
}

fn push_registrant_head(out: &mut Vec<char>, r: &str, t: &str)
    ensures
        final(out)@ == old(out)@ + registrant_head_text(r@, t@),
{
    let ghost start = out@;
    push_str(out, "\nimpl<S> ::copra::dispatcher::Registrant for ");
    push_str(out, r);
    push_str(out, "<S>\nwhere\n    S: ");
    push_str(out, t);
    push_str(out, " + Clone + Send + Sync + 'static,\n{\n    fn methods(&self) -> Vec<(String, ::copra::service::BoxedNewUnifiedMethod)> {\n        let mut entries = Vec::new();\n        let provider = &self.provider;\n    ");
    assert(out@ =~= start + registrant_head_text(r@, t@));
}

/// The end of the `Registrant` implementation, and the `NamedRegistrant` implementation of `r` for providers of `t`, naming service `n`.
pub open spec fn registrant_named_text(r: Seq<char>, t: Seq<char>, n: Seq<char>) -> Seq<char> {
    "\n        entries\n    }\n}\n"@ + "\nimpl<S> ::copra::dispatcher::NamedRegistrant for "@ + r + "<S> \nwhere \n    S: "@ + t + " + Clone + Send + Sync + 'static,\n{\n    fn name() -> &'static str {\n        \""@ + n + "\"\n    }\n}"@
}

fn push_registrant_named(out: &mut Vec<char>, r: &str, t: &str, n: &str)
    ensures
        final(out)@ == old(out)@ + registrant_named_text(r@, t@, n@),
{
    let ghost start = out@;
    push_str(out, "\n        entries\n    }\n}\n");
    push_str(out, "\nimpl<S> ::copra::dispatcher::NamedRegistrant for ");
    push_str(out, r);
    push_str(out, "<S> \nwhere \n    S: ");
    push_str(out, t);
    push_str(out, " + Clone + Send + Sync + 'static,\n{\n    fn name() -> &'static str {\n        \"");
    push_str(out, n);
    push_str(out, "\"\n    }\n}");
    assert(out@ =~= start + registrant_named_text(r@, t@, n@));
}

/// The start of the client stub struct `st`.
pub open spec fn stub_head_text(st: Seq<char>) -> Seq<char> {
    "\n#[derive(Clone)]\npub struct "@ + st + "<'a> {"@
}

fn push_stub_head(out: &mut Vec<char>, st: &str)
    ensures
        final(out)@ == old(out)@ + stub_head_text(st@),
{
    let ghost start = out@;
    push_str(out, "\n#[derive(Clone)]\npub struct ");
    push_str(out, st);
    push_str(out, "<'a> {");
    assert(out@ =~= start + stub_head_text(st@));
}

/// The end of the stub struct `st` and the start of its constructor.
pub open spec fn stub_mid_text(st: Seq<char>) -> Seq<char> {
    "}\n\nimpl<'a> "@ + st + "<'a> {\n    pub fn new(channel: &'a ::copra::channel::Channel) -> Self {\n        "@ + st + " {"@
}

fn push_stub_mid(out: &mut Vec<char>, st: &str)
    ensures
        final(out)@ == old(out)@ + stub_mid_text(st@),
{
    let ghost start = out@;
    push_str(out, "}\n\nimpl<'a> ");
    push_str(out, st);
    push_str(out, "<'a> {\n    pub fn new(channel: &'a ::copra::channel::Channel) -> Self {\n        ");
    push_str(out, st);
    push_str(out, " {");
    assert(out@ =~= start + stub_mid_text(st@));
}

/// The future declaration of method `m` in the provider trait.
pub open spec fn future_decl_f() -> spec_fn(MethodModel) -> Seq<char> {
    |m: MethodModel| trait_future_text(future_name(m.0), message_path(m.2))
}

/// The method declaration of method `m` in the provider trait.
pub open spec fn method_decl_f() -> spec_fn(MethodModel) -> Seq<char> {
    |m: MethodModel| trait_fn_text(m.0, message_path(m.1), future_name(m.0))
}

/// The registration of method `m` for providers of trait `t`.
pub open spec fn registration_f(t: Seq<char>) -> spec_fn(MethodModel) -> Seq<char> {
    |m: MethodModel| registrant_method_text(t, m.0, message_path(m.1), message_path(m.2), future_name(m.0))
}

/// The stub field of method `m`.
pub open spec fn stub_field_f() -> spec_fn(MethodModel) -> Seq<char> {
    |m: MethodModel| stub_field_text(wrapper_name(m.0), message_path(m.2), message_path(m.1))
}

/// The stub field initialization of method `m`.
pub open spec fn stub_init_f() -> spec_fn(MethodModel) -> Seq<char> {
    |m: MethodModel| stub_init_text(wrapper_name(m.0))
}

/// The stub method of method `m` of service `n`.
pub open spec fn stub_method_f(n: Seq<char>) -> spec_fn(MethodModel) -> Seq<char> {
    |m: MethodModel| stub_method_text(n, m.0, message_path(m.1), message_path(m.2), wrapper_name(m.0))
}

/// The provider trait of service `n` with methods `ms`.
pub open spec fn service_trait_text(n: Seq<char>, ms: Seq<MethodModel>) -> Seq<char> {
    trait_head_text(n + "Service"@) + concat_map(ms, future_decl_f()) + concat_map(ms, method_decl_f()) + "}"@
}

/// The registrant implementations of service `n` with methods `ms`.
pub open spec fn registrant_service_text(n: Seq<char>, ms: Seq<MethodModel>) -> Seq<char> {
    registrant_head_text(n + "Registrant"@, n + "Service"@) + concat_map(ms, registration_f(n + "Service"@))
        + registrant_named_text(n + "Registrant"@, n + "Service"@, n)
}

/// The client stub of service `n` with methods `ms`.
pub open spec fn client_stub_text(n: Seq<char>, ms: Seq<MethodModel>) -> Seq<char> {
    stub_head_text(n + "Stub"@) + concat_map(ms, stub_field_f()) + stub_mid_text(n + "Stub"@) + concat_map(
        ms,
        stub_init_f(),
    ) + "        }\n    }\n"@ + concat_map(ms, stub_method_f(n)) + "}\n"@
}

/// The provider trait of the service: a future type and a method per
/// method of the service.
pub fn generate_service_trait(s: &ServiceSpec) -> (r: Result<String, NameError>)
    ensures
        names_in_snake_case(methods_of(*s)) ==> (r matches Ok(t) && t@ == service_trait_text(s.name@, methods_of(*s))),
        !names_in_snake_case(methods_of(*s)) ==> r == Err::<String, NameError>(NameError::NotSnakeCase),
{
    let ghost ms = methods_of(*s);
    let tname = trait_name(s);
    let names = method_names(s)?;
    let futs = future_names(s)?;
    let reqs = request_types(s);
    let resps = response_types(s);
    let n = names.len();
    let mut out: Vec<char> = Vec::new();
    push_trait_head(&mut out, tname.as_str());
    let ghost head = out@;
    assert(ms.take(0) =~= Seq::<MethodModel>::empty());
    let mut i: usize = 0;
    while i < n
        invariant
            i <= n,
            n == names@.len() && n == futs@.len() && n == reqs@.len() && n == resps@.len(),
            ms == methods_of(*s),
            n == ms.len(),
            forall|k: int| 0 <= k < n ==> (#[trigger] futs@[k])@ == future_name(ms[k].0),
            forall|k: int| 0 <= k < n ==> (#[trigger] resps@[k])@ == message_path(ms[k].2),
            out@ == head + concat_map(ms.take(i as int), future_decl_f()),
        decreases n - i,
    {
        proof {
            lemma_concat_map_step(ms, i as int, future_decl_f());
        }
        push_trait_future(&mut out, futs[i].as_str(), resps[i].as_str());
        i = i + 1;
    }
    assert(ms.take(n as int) =~= ms);
    let ghost mid = out@;
    let mut i: usize = 0;
    while i < n
        invariant
            i <= n,
            n == names@.len() && n == futs@.len() && n == reqs@.len() && n == resps@.len(),
            ms == methods_of(*s),
            n == ms.len(),
            forall|k: int| 0 <= k < n ==> (#[trigger] names@[k])@ == ms[k].0,
            forall|k: int| 0 <= k < n ==> (#[trigger] futs@[k])@ == future_name(ms[k].0),
            forall|k: int| 0 <= k < n ==> (#[trigger] reqs@[k])@ == message_path(ms[k].1),
            out@ == mid + concat_map(ms.take(i as int), method_decl_f()),
        decreases n - i,
    {
        proof {
            lemma_concat_map_step(ms, i as int, method_decl_f());
        }
        push_trait_fn(&mut out, names[i].as_str(), reqs[i].as_str(), futs[i].as_str());
        i = i + 1;
    }
    push_str(&mut out, "}");
    assert(out@ =~= service_trait_text(s.name@, ms));
    Ok(string_from_chars(out.as_slice()))
}

/// The registrant struct of the service and its constructor.
pub fn generate_registrant_basic(s: &ServiceSpec) -> (r: String)
    ensures
        r@ == registrant_basic_text(s.name@ + "Registrant"@),
{
    let rname = registrant_name(s);
    let mut out: Vec<char> = Vec::new();
    push_registrant_basic(&mut out, rname.as_str());
    assert(out@ =~= registrant_basic_text(s.name@ + "Registrant"@));
    string_from_chars(out.as_slice())
}

/// The `Registrant` and `NamedRegistrant` implementations of the service's
/// registrant: each method registered under its name.
pub fn generate_registrant_service(s: &ServiceSpec) -> (r: Result<String, NameError>)
    ensures
        names_in_snake_case(methods_of(*s)) ==> (r matches Ok(t) && t@ == registrant_service_text(s.name@, methods_of(*s))),
        !names_in_snake_case(methods_of(*s)) ==> r == Err::<String, NameError>(NameError::NotSnakeCase),
{
    let ghost ms = methods_of(*s);
    let ghost t = s.name@ + "Service"@;
    let tname = trait_name(s);
    let rname = registrant_name(s);
    let names = method_names(s)?;
    let futs = future_names(s)?;
    let reqs = request_types(s);
    let resps = response_types(s);
    let n = names.len();
    let mut out: Vec<char> = Vec::new();
    push_registrant_head(&mut out, rname.as_str(), tname.as_str());
    let ghost head = out@;
    assert(ms.take(0) =~= Seq::<MethodModel>::empty());
    let mut i: usize = 0;
    while i < n
        invariant
            i <= n,
            n == names@.len() && n == futs@.len() && n == reqs@.len() && n == resps@.len(),
            ms == methods_of(*s),
            n == ms.len(),
            tname@ == t,
            forall|k: int| 0 <= k < n ==> (#[trigger] names@[k])@ == ms[k].0,
            forall|k: int| 0 <= k < n ==> (#[trigger] futs@[k])@ == future_name(ms[k].0),
            forall|k: int| 0 <= k < n ==> (#[trigger] reqs@[k])@ == message_path(ms[k].1),
            forall|k: int| 0 <= k < n ==> (#[trigger] resps@[k])@ == message_path(ms[k].2),
            out@ == head + concat_map(ms.take(i as int), registration_f(t)),
        decreases n - i,
    {
        proof {
            lemma_concat_map_step(ms, i as int, registration_f(t));
        }
        push_registrant_method(
            &mut out,
            tname.as_str(),
            names[i].as_str(),
            reqs[i].as_str(),
            resps[i].as_str(),
            futs[i].as_str(),
        );
        i = i + 1;
    }
    assert(ms.take(n as int) =~= ms);
    push_registrant_named(&mut out, rname.as_str(), tname.as_str(), s.name.as_str());
    assert(out@ =~= registrant_service_text(s.name@, ms));
    Ok(string_from_chars(out.as_slice()))
}

/// The client stub of the service: a field and a method per method of the
/// service, each naming the service and the method in the calls it makes.
pub fn generate_client_stub(s: &ServiceSpec) -> (r: Result<String, NameError>)
    ensures
        names_in_snake_case(methods_of(*s)) ==> (r matches Ok(t) && t@ == client_stub_text(s.name@, methods_of(*s))),
        !names_in_snake_case(methods_of(*s)) ==> r == Err::<String, NameError>(NameError::NotSnakeCase),
{
    let ghost ms = methods_of(*s);
    let sname = stub_name(s);
    let names = method_names(s)?;
    let wraps = wrapper_names(s)?;
    let reqs = request_types(s);
    let resps = response_types(s);
    let n = names.len();
    let mut out: Vec<char> = Vec::new();
    push_stub_head(&mut out, sname.as_str());
    let ghost p0 = out@;
    assert(ms.take(0) =~= Seq::<MethodModel>::empty());
    let mut i: usize = 0;
    while i < n
        invariant
            i <= n,
            n == names@.len() && n == wraps@.len() && n == reqs@.len() && n == resps@.len(),
            ms == methods_of(*s),
            n == ms.len(),
            forall|k: int| 0 <= k < n ==> (#[trigger] wraps@[k])@ == wrapper_name(ms[k].0),
            forall|k: int| 0 <= k < n ==> (#[trigger] reqs@[k])@ == message_path(ms[k].1),
            forall|k: int| 0 <= k < n ==> (#[trigger] resps@[k])@ == message_path(ms[k].2),
            out@ == p0 + concat_map(ms.take(i as int), stub_field_f()),
        decreases n - i,
    {
        proof {
            lemma_concat_map_step(ms, i as int, stub_field_f());
        }
        push_stub_field(&mut out, wraps[i].as_str(), resps[i].as_str(), reqs[i].as_str());
        i = i + 1;
    }
    assert(ms.take(n as int) =~= ms);
    push_stub_mid(&mut out, sname.as_str());
    let ghost p1 = out@;
    let mut i: usize = 0;
    while i < n
        invariant
            i <= n,
            n == wraps@.len(),
            ms == methods_of(*s),
            n == ms.len(),
            forall|k: int| 0 <= k < n ==> (#[trigger] wraps@[k])@ == wrapper_name(ms[k].0),
            out@ == p1 + concat_map(ms.take(i as int), stub_init_f()),
        decreases n - i,
    {
        proof {
            lemma_concat_map_step(ms, i as int, stub_init_f());
        }
        push_stub_init(&mut out, wraps[i].as_str());
        i = i + 1;
    }
    push_str(&mut out, "        }\n    }\n");
    let ghost p2 = out@;
    let mut i: usize = 0;
    while i < n
        invariant
            i <= n,
            n == names@.len() && n == wraps@.len() && n == reqs@.len() && n == resps@.len(),
            ms == methods_of(*s),
            n == ms.len(),
            forall|k: int| 0 <= k < n ==> (#[trigger] names@[k])@ == ms[k].0,
            forall|k: int| 0 <= k < n ==> (#[trigger] wraps@[k])@ == wrapper_name(ms[k].0),
            forall|k: int| 0 <= k < n ==> (#[trigger] reqs@[k])@ == message_path(ms[k].1),
            forall|k: int| 0 <= k < n ==> (#[trigger] resps@[k])@ == message_path(ms[k].2),
            out@ == p2 + concat_map(ms.take(i as int), stub_method_f(s.name@)),
        decreases n - i,
    {
        proof {
            lemma_concat_map_step(ms, i as int, stub_method_f(s.name@));
        }
        push_stub_method(
            &mut out,
            s.name.as_str(),
            names[i].as_str(),
            reqs[i].as_str(),
            resps[i].as_str(),
            wraps[i].as_str(),
        );
        i = i + 1;
    }
    push_str(&mut out, "}\n");
    assert(out@ =~= client_stub_text(s.name@, ms));
    Ok(string_from_chars(out.as_slice()))
}

/// The text of a generated file: the header, then for each service its
/// provider trait, registrant, registrant implementations and client stub,
/// each after a line break.
pub open spec fn file_text(services: Seq<(Seq<char>, Seq<MethodModel>)>) -> Seq<char>
    decreases services.len(),
{
    if services.len() == 0 {
        file_header()
    } else {
        let (n, ms) = services.last();
        file_text(services.drop_last()) + "\n"@ + service_trait_text(n, ms) + "\n"@ + registrant_basic_text(
            n + "Registrant"@,
        ) + "\n"@ + registrant_service_text(n, ms) + "\n"@ + client_stub_text(n, ms)
    }
}

/// The services, abstractly.
pub open spec fn services_of(v: Seq<ServiceSpec>) -> Seq<(Seq<char>, Seq<MethodModel>)> {
    v.map_values(|s: ServiceSpec| (s.name@, methods_of(s)))
}

/// The generated file for the module `base_name`: its name and its text.
pub fn gen_file(base_name: &str, services: &Vec<ServiceSpec>) -> (r: Result<(String, String), NameError>)
    ensures
        (forall|i: int| 0 <= i < services@.len() ==> names_in_snake_case(methods_of(#[trigger] services@[i])))
            ==> (r matches Ok((name, text)) && name@ == base_name@ + "_copra.rs"@ && text@ == file_text(
            services_of(services@),
        )),
        r is Err ==> exists|i: int| 0 <= i < services@.len() && !names_in_snake_case(methods_of(#[trigger] services@[i])),
        r is Ok ==> forall|i: int| 0 <= i < services@.len() ==> names_in_snake_case(methods_of(#[trigger] services@[i])),
{
    let ghost all = services_of(services@);
    let mut out: Vec<char> = Vec::new();
    let header = crate::codegen::generate_file_header();
    push_str(&mut out, header.as_str());
    let mut i: usize = 0;
    assert(all.take(0) =~= Seq::<(Seq<char>, Seq<MethodModel>)>::empty());
    while i < services.len()
        invariant
            i <= services@.len(),
            all == services_of(services@),
            forall|k: int| 0 <= k < i ==> names_in_snake_case(methods_of(#[trigger] services@[k])),
            out@ == file_text(all.take(i as int)),
        decreases services@.len() - i,
    {
        let s = &services[i];
        let t = match generate_service_trait(s) {
            Ok(t) => t,
            Err(e) => {
                return Err(e);
            },
        };
        let b = generate_registrant_basic(s);
        let g = match generate_registrant_service(s) {
            Ok(g) => g,
            Err(e) => {
                return Err(e);
            },
        };
        let c = match generate_client_stub(s) {
            Ok(c) => c,
            Err(e) => {
                return Err(e);
            },
        };
        push_str(&mut out, "\n");
        push_str(&mut out, t.as_str());
        push_str(&mut out, "\n");
        push_str(&mut out, b.as_str());
        push_str(&mut out, "\n");
        push_str(&mut out, g.as_str());
        push_str(&mut out, "\n");
        push_str(&mut out, c.as_str());
        proof {
            let sub = all.take(i + 1);
            assert(sub.drop_last() =~= all.take(i as int));
            assert(sub.last() == (s.name@, methods_of(*s)));
        }
        i = i + 1;
        assert(out@ =~= file_text(all.take(i as int)));
    }
    assert(all.take(services@.len() as int) =~= all);
    let mut name: Vec<char> = Vec::new();
    push_str(&mut name, base_name);
    push_str(&mut name, "_copra.rs");
    assert(name@ =~= base_name@ + "_copra.rs"@);
    Ok((string_from_chars(name.as_slice()), string_from_chars(out.as_slice())))
}

/// `text` holds `piece`: it is `piece` with something before and after.
pub open spec fn text_holds(text: Seq<char>, piece: Seq<char>) -> bool {
    exists|pre: Seq<char>, post: Seq<char>| text == pre + piece + post
}

/// `s` between double quotes: a string literal in the generated code.
pub open spec fn quoted(s: Seq<char>) -> Seq<char> {
    "\""@ + s + "\""@
}

proof fn lemma_regroup(x: Seq<char>, a1: Seq<char>, a2: Seq<char>, h: Seq<char>, b1: Seq<char>, b2: Seq<char>)
    ensures
        x + (a1 + a2) + h + (b1 + b2) == (x + a1) + (a2 + h + b1) + b2,
{
    assert(x + (a1 + a2) + h + (b1 + b2) =~= (x + a1) + (a2 + h + b1) + b2);
}

/// The registrant and the stub generated for a service agree on its names:
/// the registrant's `name()` returns the service name as a literal, the
/// `i`-th method it registers is keyed by the literal of the `i`-th method
/// name, and the `i`-th stub method calls that service and that method by
/// the same literals. So every stub call names a method that the
/// registrant, once registered, lets the dispatcher find.
pub proof fn lemma_registrant_and_stub_agree(n: Seq<char>, ms: Seq<MethodModel>, i: int)
    requires
        0 <= i < ms.len(),
    ensures
        text_holds(registrant_named_text(n + "Registrant"@, n + "Service"@, n), "fn name() -> &'static str {\n        "@ + quoted(n)),
        text_holds(registration_f(n + "Service"@)(ms[i]), quoted(ms[i].0) + ".to_string()"@),
        text_holds(stub_method_f(n)(ms[i]), quoted(n) + ".to_string(), "@ + quoted(ms[i].0) + ".to_string()"@),
{
    let m = ms[i];
    let t = n + "Service"@;
    let r = n + "Registrant"@;
    reveal_strlit("\"");
    reveal_strlit(".to_string()");
    reveal_strlit(".to_string(), ");
    reveal_strlit("fn name() -> &'static str {\n        ");
    reveal_strlit(" + Clone + Send + Sync + 'static,\n{\n    fn name() -> &'static str {\n        \"");
    reveal_strlit("\"\n    }\n}");
    reveal_strlit("(req)\n                }\n            }\n\n            let wrap = Wrapper(provider.clone());\n            let method = ::copra::service::CodecMethodBundle::new(\n                ::copra::codec::ProtobufCodec::new(), wrap\n            );\n            let new_method = ::copra::service::NewUnifiedMethod::new(method);\n            entries.push((\n                \"");
    reveal_strlit("\".to_string(), \n                Box::new(new_method) as ::copra::service::BoxedNewUnifiedMethod,\n            ));\n        }\n        ");
    reveal_strlit("\n            .call((msg, \"");
    reveal_strlit("\".to_string(), \"");
    reveal_strlit("\".to_string()))\n    }\n");
    // The name of the registrant.
    let c = " + Clone + Send + Sync + 'static,\n{\n    fn name() -> &'static str {\n        \""@;
    let d = "\"\n    }\n}"@;
    let c2 = "fn name() -> &'static str {\n        "@ + "\""@;
    let c1 = c.take(c.len() - c2.len());
    assert(c =~= c1 + c2);
    let d1 = "\""@;
    let d2 = d.skip(1);
    assert(d =~= d1 + d2);
    let named = registrant_named_text(r, t, n);
    let xn = named.take(named.len() - d.len() - n.len() - c.len());
    assert(named =~= xn + c + n + d);
    lemma_regroup(xn, c1, c2, n, d1, d2);
    assert(c2 + n + d1 =~= "fn name() -> &'static str {\n        "@ + quoted(n));
    assert(named == (xn + c1) + ("fn name() -> &'static str {\n        "@ + quoted(n)) + d2);
    // The key of the registered method.
    let b = "(req)\n                }\n            }\n\n            let wrap = Wrapper(provider.clone());\n            let method = ::copra::service::CodecMethodBundle::new(\n                ::copra::codec::ProtobufCodec::new(), wrap\n            );\n            let new_method = ::copra::service::NewUnifiedMethod::new(method);\n            entries.push((\n                \""@;
    let a = "\".to_string(), \n                Box::new(new_method) as ::copra::service::BoxedNewUnifiedMethod,\n            ));\n        }\n        "@;
    let b2 = "\""@;
    let b1 = b.take(b.len() - 1);
    assert(b =~= b1 + b2);
    let a1 = "\""@ + ".to_string()"@;
    let a2 = a.skip(a1.len() as int);
    assert(a =~= a1 + a2);
    let reg = registration_f(t)(m);
    let xr = reg.take(reg.len() - a.len() - m.0.len() - b.len());
    assert(reg =~= xr + b + m.0 + a);
    lemma_regroup(xr, b1, b2, m.0, a1, a2);
    assert(b2 + m.0 + a1 =~= quoted(m.0) + ".to_string()"@);
    // The names a stub method calls.
    let sa = "\n            .call((msg, \""@;
    let smid = "\".to_string(), \""@;
    let send = "\".to_string()))\n    }\n"@;
    let sa1 = sa.take(sa.len() - 1);
    assert(sa =~= sa1 + "\""@);
    let se1 = "\""@ + ".to_string()"@;
    let se2 = send.skip(se1.len() as int);
    assert(send =~= se1 + se2);
    assert(smid =~= "\""@ + ".to_string(), "@ + "\""@);
    let stub = stub_method_f(n)(m);
    let xs = stub.take(stub.len() - send.len() - m.0.len() - smid.len() - n.len() - sa.len());
    assert(stub =~= xs + sa + n + smid + m.0 + send);
    let piece = quoted(n) + ".to_string(), "@ + quoted(m.0) + ".to_string()"@;
    assert(stub =~= (xs + sa1) + piece + se2);
}

/// `text` holds `p` and, after it, `q`.
pub open spec fn text_holds_in_order(text: Seq<char>, p: Seq<char>, q: Seq<char>) -> bool {
    exists|a: Seq<char>, b: Seq<char>, c: Seq<char>| text == a + p + b + q + c
}

proof fn lemma_concat_map_add<A>(a: Seq<A>, b: Seq<A>, f: spec_fn(A) -> Seq<char>)
    ensures
        concat_map(a + b, f) == concat_map(a, f) + concat_map(b, f),
    decreases b.len(),
{
    if b.len() == 0 {
        assert(a + b =~= a);
        assert(concat_map(a, f) + concat_map(b, f) =~= concat_map(a, f));
    } else {
        assert((a + b).drop_last() =~= a + b.drop_last());
        assert((a + b).last() == b.last());
        lemma_concat_map_add(a, b.drop_last(), f);
        assert(concat_map(a + b, f) =~= concat_map(a, f) + concat_map(b, f));
    }
}

proof fn lemma_concat_map_at<A>(ms: Seq<A>, f: spec_fn(A) -> Seq<char>, i: int)
    requires
        0 <= i < ms.len(),
    ensures
        concat_map(ms, f) == concat_map(ms.take(i), f) + f(ms[i]) + concat_map(ms.skip(i + 1), f),
{
    let one = seq![ms[i]];
    assert(ms =~= ms.take(i) + (one + ms.skip(i + 1)));
    lemma_concat_map_add(ms.take(i), one + ms.skip(i + 1), f);
    lemma_concat_map_add(one, ms.skip(i + 1), f);
    assert(one.drop_last() =~= Seq::<A>::empty());
    assert(concat_map(one.drop_last(), f) == Seq::<char>::empty());
    assert(one.last() == ms[i]);
    assert(concat_map(one, f) =~= f(ms[i]));
    assert(concat_map(ms, f) =~= concat_map(ms.take(i), f) + f(ms[i]) + concat_map(ms.skip(i + 1), f));
}

proof fn lemma_concat_map_two<A>(ms: Seq<A>, f: spec_fn(A) -> Seq<char>, i: int, j: int, p: Seq<char>, q: Seq<char>)
    requires
        0 <= i < j < ms.len(),
        text_holds(f(ms[i]), p),
        text_holds(f(ms[j]), q),
    ensures
        text_holds_in_order(concat_map(ms, f), p, q),
{
    lemma_concat_map_at(ms, f, j);
    let head = ms.take(j);
    lemma_concat_map_at(head, f, i);
    assert(head.take(i) =~= ms.take(i));
    assert(head[i] == ms[i]);
    let (p1, p2) = choose|x: Seq<char>, y: Seq<char>| f(ms[i]) == x + p + y;
    let (q1, q2) = choose|x: Seq<char>, y: Seq<char>| f(ms[j]) == x + q + y;
    let a = concat_map(ms.take(i), f) + p1;
    let b = p2 + concat_map(head.skip(i + 1), f) + q1;
    let c = q2 + concat_map(ms.skip(j + 1), f);
    assert(concat_map(ms, f) =~= a + p + b + q + c);
}

proof fn lemma_holds_within(h: Seq<char>, mid: Seq<char>, t: Seq<char>, p: Seq<char>)
    requires
        text_holds(mid, p),
    ensures
        text_holds(h + mid + t, p),
{
    let (x, y) = choose|x: Seq<char>, y: Seq<char>| mid == x + p + y;
    assert(h + mid + t =~= (h + x) + p + (y + t));
}

proof fn lemma_in_order_within(h: Seq<char>, mid: Seq<char>, t: Seq<char>, p: Seq<char>, q: Seq<char>)
    requires
        text_holds_in_order(mid, p, q),
    ensures
        text_holds_in_order(h + mid + t, p, q),
{
    let (a, b, c) = choose|a: Seq<char>, b: Seq<char>, c: Seq<char>| mid == a + p + b + q + c;
    assert(h + mid + t =~= (h + a) + p + b + q + (c + t));
}

/// The generated registrant and stub of a service agree, in order: the
/// registrant's `name()` returns the service name as a literal; for any two
/// methods, the registrant keys the earlier one first and the later one
/// after it, each by the literal of its name; and the stub's calls of the
/// two, in the same order, name the service and each method by the same
/// literals. So each stub call names a method that the registered
/// registrant lets the dispatcher find.
pub proof fn lemma_generated_names_agree(n: Seq<char>, ms: Seq<MethodModel>, i: int, j: int)
    requires
        0 <= i < j < ms.len(),
    ensures
        text_holds(registrant_service_text(n, ms), "fn name() -> &'static str {\n        "@ + quoted(n)),
        text_holds_in_order(
            registrant_service_text(n, ms),
            quoted(ms[i].0) + ".to_string()"@,
            quoted(ms[j].0) + ".to_string()"@,
        ),
        text_holds_in_order(
            client_stub_text(n, ms),
            quoted(n) + ".to_string(), "@ + quoted(ms[i].0) + ".to_string()"@,
            quoted(n) + ".to_string(), "@ + quoted(ms[j].0) + ".to_string()"@,
        ),
{
    lemma_registrant_and_stub_agree(n, ms, i);
    lemma_registrant_and_stub_agree(n, ms, j);
    let t = n + "Service"@;
    let rf = registration_f(t);
    let sf = stub_method_f(n);
    let key_i = quoted(ms[i].0) + ".to_string()"@;
    let key_j = quoted(ms[j].0) + ".to_string()"@;
    let call_i = quoted(n) + ".to_string(), "@ + quoted(ms[i].0) + ".to_string()"@;
    let call_j = quoted(n) + ".to_string(), "@ + quoted(ms[j].0) + ".to_string()"@;
    let np = "fn name() -> &'static str {\n        "@ + quoted(n);
    let head = registrant_head_text(n + "Registrant"@, t);
    let named = registrant_named_text(n + "Registrant"@, t, n);
    let regs = concat_map(ms, rf);
    assert(registrant_service_text(n, ms) == head + regs + named);
    lemma_holds_within(head + regs, named, Seq::empty(), np);
    assert(head + regs + named + Seq::<char>::empty() =~= head + regs + named);
    lemma_concat_map_two(ms, rf, i, j, key_i, key_j);
    lemma_in_order_within(head, regs, named, key_i, key_j);
    let sh = stub_head_text(n + "Stub"@) + concat_map(ms, stub_field_f()) + stub_mid_text(n + "Stub"@)
        + concat_map(ms, stub_init_f()) + "        }\n    }\n"@;
    let calls = concat_map(ms, sf);
    assert(client_stub_text(n, ms) == sh + calls + "}\n"@);
    lemma_concat_map_two(ms, sf, i, j, call_i, call_j);
    lemma_in_order_within(sh, calls, "}\n"@, call_i, call_j);
}

proof fn lemma_holds_around(
    x: Seq<char>,
    l: Seq<char>,
    v: Seq<char>,
    r: Seq<char>,
    y: Seq<char>,
    h: Seq<char>,
    t: Seq<char>,
)
    requires
        h.len() <= l.len(),
        l.skip(l.len() - h.len()) == h,
        t.len() <= r.len(),
        r.take(t.len() as int) == t,
    ensures
        text_holds(x + l + v + r + y, h + v + t),
{
    let l1 = l.take(l.len() - h.len());
    let r2 = r.skip(t.len() as int);
    assert(l =~= l1 + h);
    assert(r =~= t + r2);
    assert(x + l + v + r + y =~= (x + l1) + (h + v + t) + (r2 + y));
}

/// What the generated registrant and provider trait say of a method's
/// messages agree: in the registration of method `m`, the wrapper's
/// `Request` is the method's request message and its `Response` the
/// method's response message (each with the controller); the provider
/// trait's method takes that request message, and its future answers that
/// response message.
pub proof fn lemma_registration_messages_match_trait(n: Seq<char>, m: MethodModel)
    ensures
        text_holds(
            registration_f(n + "Service"@)(m),
            "type Request = ("@ + message_path(m.1) + ", ::copra::controller::Controller);"@,
        ),
        text_holds(
            registration_f(n + "Service"@)(m),
            "type Response = ("@ + message_path(m.2) + ", ::copra::controller::Controller);"@,
        ),
        text_holds(method_decl_f()(m), "msg: ("@ + message_path(m.1) + ", ::copra::controller::Controller)"@),
        text_holds(future_decl_f()(m), "Item = ("@ + message_path(m.2) + ", ::copra::controller::Controller)"@),
{
    let t = n + "Service"@;
    let name = m.0;
    let req = message_path(m.1);
    let resp = message_path(m.2);
    let fut = future_name(m.0);
    let reg = registration_f(t)(m);
    assert(reg == registrant_method_text(t, name, req, resp, fut));
    assert(reg =~= ("\n        {\n            #[derive(Clone)]\n            struct Wrapper<S: Clone>(S);\n\n            impl<S> ::copra::service::Service for Wrapper<S>\n            where\n                S: "@ + t) + " + Clone,\n            {\n                type Request = ("@ + req + ", ::copra::controller::Controller);\n                type Response = ("@ + (resp + ", ::copra::controller::Controller);\n                type Error = ::copra::service::ProviderSetError;\n                type Future = <S as "@ + t + ">::"@ + fut + ";\n\n                fn call(&self, req: Self::Request) -> Self::Future {\n                    self.0."@ + name + "(req)\n                }\n            }\n\n            let wrap = Wrapper(provider.clone());\n            let method = ::copra::service::CodecMethodBundle::new(\n                ::copra::codec::ProtobufCodec::new(), wrap\n            );\n            let new_method = ::copra::service::NewUnifiedMethod::new(method);\n            entries.push((\n                \""@ + name + "\".to_string(), \n                Box::new(new_method) as ::copra::service::BoxedNewUnifiedMethod,\n            ));\n        }\n        "@));
    reveal_strlit(" + Clone,\n            {\n                type Request = (");
    reveal_strlit(", ::copra::controller::Controller);\n                type Response = (");
    reveal_strlit("type Request = (");
    reveal_strlit(", ::copra::controller::Controller);");
    assert(" + Clone,\n            {\n                type Request = ("@.skip(" + Clone,\n            {\n                type Request = ("@.len() - "type Request = ("@.len()) =~= "type Request = ("@);
    assert(", ::copra::controller::Controller);\n                type Response = ("@.take(", ::copra::controller::Controller);"@.len() as int) =~= ", ::copra::controller::Controller);"@);
    lemma_holds_around("\n        {\n            #[derive(Clone)]\n            struct Wrapper<S: Clone>(S);\n\n            impl<S> ::copra::service::Service for Wrapper<S>\n            where\n                S: "@ + t, " + Clone,\n            {\n                type Request = ("@, req, ", ::copra::controller::Controller);\n                type Response = ("@, resp + ", ::copra::controller::Controller);\n                type Error = ::copra::service::ProviderSetError;\n                type Future = <S as "@ + t + ">::"@ + fut + ";\n\n                fn call(&self, req: Self::Request) -> Self::Future {\n                    self.0."@ + name + "(req)\n                }\n            }\n\n            let wrap = Wrapper(provider.clone());\n            let method = ::copra::service::CodecMethodBundle::new(\n                ::copra::codec::ProtobufCodec::new(), wrap\n            );\n            let new_method = ::copra::service::NewUnifiedMethod::new(method);\n            entries.push((\n                \""@ + name + "\".to_string(), \n                Box::new(new_method) as ::copra::service::BoxedNewUnifiedMethod,\n            ));\n        }\n        "@, "type Request = ("@, ", ::copra::controller::Controller);"@);
    assert(reg =~= ("\n        {\n            #[derive(Clone)]\n            struct Wrapper<S: Clone>(S);\n\n            impl<S> ::copra::service::Service for Wrapper<S>\n            where\n                S: "@ + t + " + Clone,\n            {\n                type Request = ("@ + req) + ", ::copra::controller::Controller);\n                type Response = ("@ + resp + ", ::copra::controller::Controller);\n                type Error = ::copra::service::ProviderSetError;\n                type Future = <S as "@ + (t + ">::"@ + fut + ";\n\n                fn call(&self, req: Self::Request) -> Self::Future {\n                    self.0."@ + name + "(req)\n                }\n            }\n\n            let wrap = Wrapper(provider.clone());\n            let method = ::copra::service::CodecMethodBundle::new(\n                ::copra::codec::ProtobufCodec::new(), wrap\n            );\n            let new_method = ::copra::service::NewUnifiedMethod::new(method);\n            entries.push((\n                \""@ + name + "\".to_string(), \n                Box::new(new_method) as ::copra::service::BoxedNewUnifiedMethod,\n            ));\n        }\n        "@));
    reveal_strlit(", ::copra::controller::Controller);\n                type Response = (");
    reveal_strlit(", ::copra::controller::Controller);\n                type Error = ::copra::service::ProviderSetError;\n                type Future = <S as ");
    reveal_strlit("type Response = (");
    reveal_strlit(", ::copra::controller::Controller);");
    assert(", ::copra::controller::Controller);\n                type Response = ("@.skip(", ::copra::controller::Controller);\n                type Response = ("@.len() - "type Response = ("@.len()) =~= "type Response = ("@);
    assert(", ::copra::controller::Controller);\n                type Error = ::copra::service::ProviderSetError;\n                type Future = <S as "@.take(", ::copra::controller::Controller);"@.len() as int) =~= ", ::copra::controller::Controller);"@);
    lemma_holds_around("\n        {\n            #[derive(Clone)]\n            struct Wrapper<S: Clone>(S);\n\n            impl<S> ::copra::service::Service for Wrapper<S>\n            where\n                S: "@ + t + " + Clone,\n            {\n                type Request = ("@ + req, ", ::copra::controller::Controller);\n                type Response = ("@, resp, ", ::copra::controller::Controller);\n                type Error = ::copra::service::ProviderSetError;\n                type Future = <S as "@, t + ">::"@ + fut + ";\n\n                fn call(&self, req: Self::Request) -> Self::Future {\n                    self.0."@ + name + "(req)\n                }\n            }\n\n            let wrap = Wrapper(provider.clone());\n            let method = ::copra::service::CodecMethodBundle::new(\n                ::copra::codec::ProtobufCodec::new(), wrap\n            );\n            let new_method = ::copra::service::NewUnifiedMethod::new(method);\n            entries.push((\n                \""@ + name + "\".to_string(), \n                Box::new(new_method) as ::copra::service::BoxedNewUnifiedMethod,\n            ));\n        }\n        "@, "type Response = ("@, ", ::copra::controller::Controller);"@);
    let decl = method_decl_f()(m);
    assert(decl == trait_fn_text(name, req, fut));
    assert(decl =~= ("\n    fn "@ + name) + "(&self, msg: ("@ + req + ", ::copra::controller::Controller)) -> Self::"@ + (fut + ";\n"@));
    reveal_strlit("(&self, msg: (");
    reveal_strlit(", ::copra::controller::Controller)) -> Self::");
    reveal_strlit("msg: (");
    reveal_strlit(", ::copra::controller::Controller)");
    assert("(&self, msg: ("@.skip("(&self, msg: ("@.len() - "msg: ("@.len()) =~= "msg: ("@);
    assert(", ::copra::controller::Controller)) -> Self::"@.take(", ::copra::controller::Controller)"@.len() as int) =~= ", ::copra::controller::Controller)"@);
    lemma_holds_around("\n    fn "@ + name, "(&self, msg: ("@, req, ", ::copra::controller::Controller)) -> Self::"@, fut + ";\n"@, "msg: ("@, ", ::copra::controller::Controller)"@);
    let fdecl = future_decl_f()(m);
    assert(fdecl == trait_future_text(fut, resp));
    assert(fdecl =~= ("\n    type "@ + fut) + ": ::futures::Future<\n        Item = ("@ + resp + ", ::copra::controller::Controller), \n        Error = ::copra::service::ProviderSetError,\n    > + 'static;\n"@ + (Seq::<char>::empty()));
    reveal_strlit(": ::futures::Future<\n        Item = (");
    reveal_strlit(", ::copra::controller::Controller), \n        Error = ::copra::service::ProviderSetError,\n    > + 'static;\n");
    reveal_strlit("Item = (");
    reveal_strlit(", ::copra::controller::Controller)");
    assert(": ::futures::Future<\n        Item = ("@.skip(": ::futures::Future<\n        Item = ("@.len() - "Item = ("@.len()) =~= "Item = ("@);
    assert(", ::copra::controller::Controller), \n        Error = ::copra::service::ProviderSetError,\n    > + 'static;\n"@.take(", ::copra::controller::Controller)"@.len() as int) =~= ", ::copra::controller::Controller)"@);
    lemma_holds_around("\n    type "@ + fut, ": ::futures::Future<\n        Item = ("@, resp, ", ::copra::controller::Controller), \n        Error = ::copra::service::ProviderSetError,\n    > + 'static;\n"@, Seq::<char>::empty(), "Item = ("@, ", ::copra::controller::Controller)"@);
}

} // verus!
