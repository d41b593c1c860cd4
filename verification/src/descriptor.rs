//! From the descriptor set that protoc writes to the generated files: which
//! files are selected, which of them declare services, and the code for
//! each.

use protobuf::descriptor::FileDescriptorSet;
use protobuf::descriptorx::MessageOrEnumWithScope::Message;
use protobuf::descriptorx::{proto_path_to_rust_mod, FileScope, WithScope};
use protobuf::parse_from_bytes;
use vstd::prelude::*;

use crate::codegen::{effective_includes, files_to_generate, relative_path, GenerateError};
use crate::generator::{
    gen_file, methods_of, names_in_snake_case, services_of, MethodModel, MethodSpec, ServiceSpec,
};

verus! {

/// A message or enum type a `.proto` file declares: its name within the
/// package (`Outer.Inner` for a nested one), its Rust name, and whether it
/// is a message.
#[derive(Clone, Debug, PartialEq, Eq)]
pub struct DescribedType {
    /// The name within the package.
    pub name: String,
    /// The Rust name.
    pub rust_name: String,
    /// A message, not an enum.
    pub message: bool,
}

/// A method as a descriptor gives it: its name and the full protobuf names
/// (`.pkg.Msg`) of its request and response.
#[derive(Clone, Debug, PartialEq, Eq)]
pub struct DescribedMethod {
    /// The method name.
    pub name: String,
    /// The full name of the request message.
    pub input_type: String,
    /// The full name of the response message.
    pub output_type: String,
}

/// A service as a descriptor gives it.
#[derive(Clone, Debug, PartialEq, Eq)]
pub struct DescribedService {
    /// The service name.
    pub name: String,
    /// The methods, in order.
    pub methods: Vec<DescribedMethod>,
}

/// A `.proto` file of a descriptor set: its name, its package, the types it
/// declares (nested ones included, in the order protobuf walks them) and
/// its services.
#[derive(Clone, Debug, PartialEq, Eq)]
pub struct DescribedFile {
    /// The file name, as protoc gives it.
    pub name: String,
    /// The package.
    pub package: String,
    /// The types declared.
    pub types: Vec<DescribedType>,
    /// The services declared, in order.
    pub services: Vec<DescribedService>,
}

/// Abstract value of a [`DescribedType`].
pub type TypeModel = (Seq<char>, Seq<char>, bool);

/// Abstract value of a [`DescribedService`]: its name and its methods
/// (name, request name, response name).
pub type DescribedServiceModel = (Seq<char>, Seq<MethodModel>);

/// Abstract value of a [`DescribedFile`].
pub type FileModel = (Seq<char>, Seq<char>, Seq<TypeModel>, Seq<DescribedServiceModel>);

impl View for DescribedType {
    type V = TypeModel;

    open spec fn view(&self) -> TypeModel {
        (self.name@, self.rust_name@, self.message)
    }
}

impl View for DescribedMethod {
    type V = MethodModel;

    open spec fn view(&self) -> MethodModel {
        (self.name@, self.input_type@, self.output_type@)
    }
}

impl View for DescribedService {
    type V = DescribedServiceModel;

    open spec fn view(&self) -> DescribedServiceModel {
        (self.name@, self.methods@.map_values(|m: DescribedMethod| m@))
    }
}

impl View for DescribedFile {
    type V = FileModel;

    open spec fn view(&self) -> FileModel {
        (
            self.name@,
            self.package@,
            self.types@.map_values(|t: DescribedType| t@),
            self.services@.map_values(|s: DescribedService| s@),
        )
    }
}

/// The files that a serialised descriptor set describes, as the protobuf
/// crate reads them; `None` when the bytes do not parse as a descriptor
/// set.
pub uninterp spec fn descriptor_files(bytes: Seq<u8>) -> Option<Seq<FileModel>>;

/// Parses a descriptor set with `protobuf::parse_from_bytes` and copies out
/// each file's name, package, services and types; the types are those
/// `FileScope::find_messages_and_enums` lists, each with its
/// `name_to_package` and `rust_name`. The result is named
/// `descriptor_files`.
#[verifier::external_body]
fn parse_descriptor_set(bytes: &[u8]) -> (r: Option<Vec<DescribedFile>>)
    ensures
        match descriptor_files(bytes@) {
            None => r is None,
            Some(fs) => r matches Some(v) && v@.map_values(|f: DescribedFile| f@) == fs,
        },
{
    let set = parse_from_bytes::<FileDescriptorSet>(bytes).ok()?;
    Some(set.get_file().iter().map(|f| described_file(
        f.get_name().into(),
        f.get_package().into(),
        FileScope { file_descriptor: f }.find_messages_and_enums().iter().map(|t| described_type(
            t.name_to_package(), t.rust_name(), matches!(t, Message(_)))).collect(),
        f.get_service().iter().map(|s| described_service(s.get_name().into(), s.get_method().iter().map(|m|
            described_method(m.get_name().into(), m.get_input_type().into(), m.get_output_type().into())).collect())).collect(),
    )).collect())
}

fn described_type(name: String, rust_name: String, message: bool) -> (r: DescribedType)
    ensures
        r == (DescribedType { name, rust_name, message }),
{
    DescribedType { name, rust_name, message }
}

fn described_method(name: String, input_type: String, output_type: String) -> (r: DescribedMethod)
    ensures
        r == (DescribedMethod { name, input_type, output_type }),
{
    DescribedMethod { name, input_type, output_type }
}

fn described_service(name: String, methods: Vec<DescribedMethod>) -> (r: DescribedService)
    ensures
        r == (DescribedService { name, methods }),
{
    DescribedService { name, methods }
}

fn described_file(
    name: String,
    package: String,
    types: Vec<DescribedType>,
    services: Vec<DescribedService>,
) -> (r: DescribedFile)
    ensures
        r == (DescribedFile { name, package, types, services }),
{
    DescribedFile { name, package, types, services }
}

/// `path` names a `.proto` file.
pub open spec fn is_proto_name(path: Seq<char>) -> bool {
    path.len() >= 6 && path.skip(path.len() - 6) == ".proto"@
}

/// The Rust module of the code for the `.proto` file `path`, as the
/// protobuf crate names it.
pub uninterp spec fn rust_mod_name(path: Seq<char>) -> Seq<char>;

/// `protobuf::descriptorx::proto_path_to_rust_mod`: the Rust module of a
/// `.proto` file, named `rust_mod_name`. It panics on a path that does not
/// end in `.proto`, which `requires` leaves out.
#[verifier::external_body]
fn rust_mod_of(path: &str) -> (r: String)
    requires
        is_proto_name(path@),
    ensures
        r@ == rust_mod_name(path@),
{
    proto_path_to_rust_mod(path)
}

/// The first type of `types` named `name`.
pub open spec fn first_type(types: Seq<TypeModel>, name: Seq<char>) -> Option<TypeModel>
    decreases types.len(),
{
    if types.len() == 0 {
        None
    } else if types[0].0 == name {
        Some(types[0])
    } else {
        first_type(types.drop_first(), name)
    }
}

/// The name within package `package` that the full name `tail` (without its
/// leading dot) stands for, if it lies in that package: all of it for the
/// empty package, else what follows `package.`.
pub open spec fn name_in_package(package: Seq<char>, tail: Seq<char>) -> Option<Seq<char>> {
    if package.len() == 0 {
        Some(tail)
    } else if tail.len() >= package.len() + 1 && tail.take(package.len() as int) == package && tail[package.len() as int] == '.' {
        Some(tail.skip(package.len() as int + 1))
    } else {
        None
    }
}

/// The type that the full name `tail` (without its leading dot) stands for:
/// the first file whose package holds it decides, and its first type of
/// that name is the one; with the name of the file that declares it.
pub open spec fn find_type(files: Seq<FileModel>, tail: Seq<char>) -> Option<(Seq<char>, TypeModel)>
    decreases files.len(),
{
    if files.len() == 0 {
        None
    } else {
        match name_in_package(files[0].1, tail) {
            Some(n) => match first_type(files[0].2, n) {
                Some(t) => Some((files[0].0, t)),
                None => find_type(files.drop_first(), tail),
            },
            None => find_type(files.drop_first(), tail),
        }
    }
}

/// The Rust path of the message of full name `fqn` (`.pkg.Msg`): the module
/// of the file that declares it and its Rust name; `None` when the name
/// does not start with a dot, names no type or an enum, or its file's name
/// is not that of a `.proto` file.
pub open spec fn message_rust_path(files: Seq<FileModel>, fqn: Seq<char>) -> Option<Seq<char>> {
    if fqn.len() == 0 || fqn[0] != '.' {
        None
    } else {
        match find_type(files, fqn.skip(1)) {
            Some((file, t)) => if t.2 && is_proto_name(file) {
                Some(rust_mod_name(file) + "::"@ + t.1)
            } else {
                None
            },
            None => None,
        }
    }
}

/// The methods with the Rust paths of their messages, or `None` when one
/// of them does not resolve.
pub open spec fn resolved_methods(files: Seq<FileModel>, ms: Seq<MethodModel>) -> Option<Seq<MethodModel>>
    decreases ms.len(),
{
    if ms.len() == 0 {
        Some(Seq::empty())
    } else {
        match resolved_methods(files, ms.drop_last()) {
            None => None,
            Some(done) => match (message_rust_path(files, ms.last().1), message_rust_path(files, ms.last().2)) {
                (Some(i), Some(o)) => Some(done.push((ms.last().0, i, o))),
                _ => None,
            },
        }
    }
}

/// The services with the Rust paths of their messages, or `None` when a
/// message does not resolve.
pub open spec fn resolved_services(files: Seq<FileModel>, ss: Seq<DescribedServiceModel>) -> Option<
    Seq<(Seq<char>, Seq<MethodModel>)>,
>
    decreases ss.len(),
{
    if ss.len() == 0 {
        Some(Seq::empty())
    } else {
        match resolved_services(files, ss.drop_last()) {
            None => None,
            Some(done) => match resolved_methods(files, ss.last().1) {
                Some(ms) => Some(done.push((ss.last().0, ms))),
                None => None,
            },
        }
    }
}

/// The last file of `files` named `name`.
pub open spec fn file_named(files: Seq<FileModel>, name: Seq<char>) -> Option<FileModel>
    decreases files.len(),
{
    if files.len() == 0 {
        None
    } else if files.last().0 == name {
        Some(files.last())
    } else {
        file_named(files.drop_last(), name)
    }
}

/// The input files relative to the include directories, or `None` when one
/// of them lies below none.
pub open spec fn relative_inputs(input: Seq<Seq<char>>, includes: Seq<Seq<char>>) -> Option<Seq<Seq<char>>> {
    let incs = effective_includes(includes);
    if forall|k: int| 0 <= k < input.len() ==> (#[trigger] relative_path(input[k], incs)) is Some {
        Some(Seq::new(input.len(), |k: int| relative_path(input[k], incs)->0))
    } else {
        None
    }
}

/// What generating code for the files named `names` comes to.
pub enum GenerationModel {
    /// The generated files, each a name and a text, in order.
    Done(Seq<(Seq<char>, Seq<char>)>),
    /// The descriptor set has no file of this name.
    Missing(Seq<char>),
    /// A method's message is not a message of the descriptor set.
    UnknownMessage,
    /// The file of this name is not a `.proto` file.
    NotProtoFile(Seq<char>),
    /// A method name is not in snake case.
    BadName,
}

/// The services' method names are all in snake case.
pub open spec fn service_names_fit(services: Seq<(Seq<char>, Seq<MethodModel>)>) -> bool {
    forall|i: int| 0 <= i < services.len() ==> names_in_snake_case(#[trigger] services[i].1)
}

/// Generating code for the files named `names`, in order: a file that
/// declares no service gives no code; every other file, once the messages
/// of its methods are resolved to Rust paths, gives one file, named after
/// its module, with the text of its services.
pub open spec fn generated(files: Seq<FileModel>, names: Seq<Seq<char>>) -> GenerationModel
    decreases names.len(),
{
    if names.len() == 0 {
        GenerationModel::Done(Seq::empty())
    } else {
        match generated(files, names.drop_last()) {
            GenerationModel::Done(out) => match file_named(files, names.last()) {
                None => GenerationModel::Missing(names.last()),
                Some(f) => if f.3.len() == 0 {
                    GenerationModel::Done(out)
                } else {
                    match resolved_services(files, f.3) {
                        None => GenerationModel::UnknownMessage,
                        Some(ss) => if !is_proto_name(f.0) {
                            GenerationModel::NotProtoFile(f.0)
                        } else if service_names_fit(ss) {
                            GenerationModel::Done(
                                out.push((rust_mod_name(f.0) + "_copra.rs"@, crate::generator::file_text(ss))),
                            )
                        } else {
                            GenerationModel::BadName
                        },
                    }
                },
            },
            other => other,
        }
    }
}

fn chars_eq(a: &[char], b: &[char]) -> (r: bool)
    ensures
        r == (a@ == b@),
{
    if a.len() != b.len() {
        return false;
    }
    let mut i: usize = 0;
    while i < a.len()
        invariant
            a@.len() == b@.len(),
            i <= a@.len(),
            forall|k: int| 0 <= k < i ==> a@[k] == b@[k],
        decreases a@.len() - i,
    {
        if a[i] != b[i] {
            return false;
        }
        i = i + 1;
    }
    assert(a@ =~= b@);
    true
}

fn chars_from(v: &Vec<char>, from: usize) -> (r: Vec<char>)
    requires
        from <= v@.len(),
    ensures
        r@ == v@.skip(from as int),
{
    let mut r: Vec<char> = Vec::new();
    let mut i: usize = from;
    while i < v.len()
        invariant
            from <= i <= v@.len(),
            r@ == v@.subrange(from as int, i as int),
        decreases v@.len() - i,
    {
        r.push(v[i]);
        i = i + 1;
        assert(r@ =~= v@.subrange(from as int, i as int));
    }
    assert(r@ =~= v@.skip(from as int));
    r
}

fn is_proto_file(path: &str) -> (r: bool)
    ensures
        r == is_proto_name(path@),
{
    let p = crate::text::str_chars(path);
    let n = p.len();
    if n < 6 {
        return false;
    }
    let tail = crate::text::str_chars(".proto");
    let r = chars_eq(&p.as_slice()[n - 6..n], tail.as_slice());
    proof {
        assert(p@.subrange(n - 6, n as int) =~= p@.skip(n - 6));
    }
    r
}

fn name_in_package_exec(package: &Vec<char>, tail: &Vec<char>) -> (r: Option<Vec<char>>)
    ensures
        match name_in_package(package@, tail@) {
            None => r is None,
            Some(n) => r matches Some(v) && v@ == n,
        },
{
    let p = package.len();
    if p == 0 {
        return Some(tail.clone());
    }
    if tail.len() <= p {
        return None;
    }
    if !chars_eq(&tail.as_slice()[0..p], package.as_slice()) || tail[p] != '.' {
        proof {
            assert(tail@.subrange(0, p as int) =~= tail@.take(p as int));
        }
        return None;
    }
    proof {
        assert(tail@.subrange(0, p as int) =~= tail@.take(p as int));
    }
    Some(chars_from(tail, p + 1))
}

fn first_type_exec(types: &Vec<DescribedType>, name: &Vec<char>) -> (r: Option<usize>)
    ensures
        match first_type(types@.map_values(|t: DescribedType| t@), name@) {
            None => r is None,
            Some(t) => r matches Some(k) && k < types@.len() && types@[k as int]@ == t,
        },
{
    let ghost ts = types@.map_values(|t: DescribedType| t@);
    let mut i: usize = 0;
    assert(ts.skip(0) =~= ts);
    while i < types.len()
        invariant
            i <= types@.len(),
            ts == types@.map_values(|t: DescribedType| t@),
            first_type(ts, name@) == first_type(ts.skip(i as int), name@),
        decreases types@.len() - i,
    {
        assert(ts.skip(i as int).drop_first() =~= ts.skip(i + 1));
        let t = crate::text::str_chars(types[i].name.as_str());
        if chars_eq(t.as_slice(), name.as_slice()) {
            return Some(i);
        }
        i = i + 1;
    }
    None
}

fn find_type_exec(files: &Vec<DescribedFile>, tail: &Vec<char>) -> (r: Option<(usize, usize)>)
    ensures
        match find_type(files@.map_values(|f: DescribedFile| f@), tail@) {
            None => r is None,
            Some((file, t)) => r matches Some((i, k)) && i < files@.len() && k < files@[i as int].types@.len()
                && files@[i as int].name@ == file && files@[i as int].types@[k as int]@ == t,
        },
{
    let ghost fs = files@.map_values(|f: DescribedFile| f@);
    let mut i: usize = 0;
    assert(fs.skip(0) =~= fs);
    while i < files.len()
        invariant
            i <= files@.len(),
            fs == files@.map_values(|f: DescribedFile| f@),
            find_type(fs, tail@) == find_type(fs.skip(i as int), tail@),
        decreases files@.len() - i,
    {
        assert(fs.skip(i as int).drop_first() =~= fs.skip(i + 1));
        assert(fs.skip(i as int)[0] == files@[i as int]@);
        let package = crate::text::str_chars(files[i].package.as_str());
        match name_in_package_exec(&package, tail) {
            Some(n) => match first_type_exec(&files[i].types, &n) {
                Some(k) => {
                    return Some((i, k));
                },
                None => {},
            },
            None => {},
        }
        i = i + 1;
    }
    None
}

fn message_path_exec(files: &Vec<DescribedFile>, fqn: &str) -> (r: Option<String>)
    ensures
        match message_rust_path(files@.map_values(|f: DescribedFile| f@), fqn@) {
            None => r is None,
            Some(p) => r matches Some(x) && x@ == p,
        },
{
    let cs = crate::text::str_chars(fqn);
    if cs.len() == 0 || cs[0] != '.' {
        return None;
    }
    let tail = chars_from(&cs, 1);
    match find_type_exec(files, &tail) {
        None => None,
        Some((i, k)) => {
            let t = &files[i].types[k];
            if !t.message || !is_proto_file(files[i].name.as_str()) {
                return None;
            }
            let m = rust_mod_of(files[i].name.as_str());
            let mut out = crate::text::str_chars(m.as_str());
            crate::text::push_str(&mut out, "::");
            crate::text::push_str(&mut out, t.rust_name.as_str());
            Some(crate::text::string_from_chars(out.as_slice()))
        },
    }
}

fn resolve_service(files: &Vec<DescribedFile>, s: &DescribedService) -> (r: Option<ServiceSpec>)
    ensures
        match resolved_methods(files@.map_values(|f: DescribedFile| f@), s@.1) {
            None => r is None,
            Some(ms) => r matches Some(x) && x.name@ == s@.0 && methods_of(x) == ms,
        },
{
    let ghost fs = files@.map_values(|f: DescribedFile| f@);
    let ghost all = s@.1;
    let mut methods: Vec<MethodSpec> = Vec::new();
    let mut i: usize = 0;
    assert(all.take(0) =~= Seq::<MethodModel>::empty());
    assert(methods@.map_values(|m: MethodSpec| m@) =~= Seq::<MethodModel>::empty());
    while i < s.methods.len()
        invariant
            i <= s.methods@.len(),
            fs == files@.map_values(|f: DescribedFile| f@),
            all == s@.1,
            resolved_methods(fs, all.take(i as int)) == Some(methods@.map_values(|m: MethodSpec| m@)),
        decreases s.methods@.len() - i,
    {
        let ghost before = methods@.map_values(|m: MethodSpec| m@);
        assert(all.take(i + 1).drop_last() =~= all.take(i as int));
        assert(all.take(i + 1).last() == s.methods@[i as int]@);
        let m = &s.methods[i];
        let input = match message_path_exec(files, m.input_type.as_str()) {
            Some(x) => x,
            None => {
                proof {
                    lemma_unresolved_stays(fs, all, i + 1);
                }
                return None;
            },
        };
        let output = match message_path_exec(files, m.output_type.as_str()) {
            Some(x) => x,
            None => {
                proof {
                    lemma_unresolved_stays(fs, all, i + 1);
                }
                return None;
            },
        };
        methods.push(MethodSpec { name: m.name.clone(), input_type: input, output_type: output });
        assert(methods@.map_values(|m: MethodSpec| m@) =~= before.push(
            (m.name@, message_rust_path(fs, m.input_type@)->0, message_rust_path(fs, m.output_type@)->0),
        ));
        i = i + 1;
    }
    assert(all.take(s.methods@.len() as int) =~= all);
    Some(ServiceSpec { name: s.name.clone(), methods })
}

proof fn lemma_unresolved_stays(files: Seq<FileModel>, ms: Seq<MethodModel>, i: int)
    requires
        0 <= i <= ms.len(),
        resolved_methods(files, ms.take(i)) is None,
    ensures
        resolved_methods(files, ms) is None,
    decreases ms.len() - i,
{
    if i < ms.len() {
        assert(ms.take(i + 1).drop_last() =~= ms.take(i));
        lemma_unresolved_stays(files, ms, i + 1);
    } else {
        assert(ms.take(i) =~= ms);
    }
}

proof fn lemma_unresolved_services_stay(files: Seq<FileModel>, ss: Seq<DescribedServiceModel>, i: int)
    requires
        0 <= i <= ss.len(),
        resolved_services(files, ss.take(i)) is None,
    ensures
        resolved_services(files, ss) is None,
    decreases ss.len() - i,
{
    if i < ss.len() {
        assert(ss.take(i + 1).drop_last() =~= ss.take(i));
        lemma_unresolved_services_stay(files, ss, i + 1);
    } else {
        assert(ss.take(i) =~= ss);
    }
}

fn resolve_services(files: &Vec<DescribedFile>, ss: &Vec<DescribedService>) -> (r: Option<Vec<ServiceSpec>>)
    ensures
        match resolved_services(files@.map_values(|f: DescribedFile| f@), ss@.map_values(|s: DescribedService| s@)) {
            None => r is None,
            Some(v) => r matches Some(x) && services_of(x@) == v,
        },
{
    let ghost fs = files@.map_values(|f: DescribedFile| f@);
    let ghost all = ss@.map_values(|s: DescribedService| s@);
    let mut out: Vec<ServiceSpec> = Vec::new();
    let mut i: usize = 0;
    assert(all.take(0) =~= Seq::<DescribedServiceModel>::empty());
    assert(services_of(out@) =~= Seq::<(Seq<char>, Seq<MethodModel>)>::empty());
    while i < ss.len()
        invariant
            i <= ss@.len(),
            fs == files@.map_values(|f: DescribedFile| f@),
            all == ss@.map_values(|s: DescribedService| s@),
            resolved_services(fs, all.take(i as int)) == Some(services_of(out@)),
        decreases ss@.len() - i,
    {
        let ghost before = services_of(out@);
        assert(all.take(i + 1).drop_last() =~= all.take(i as int));
        assert(all.take(i + 1).last() == ss@[i as int]@);
        match resolve_service(files, &ss[i]) {
            None => {
                proof {
                    lemma_unresolved_services_stay(fs, all, i + 1);
                }
                return None;
            },
            Some(x) => {
                out.push(x);
                assert(services_of(out@) =~= before.push((x.name@, methods_of(x))));
            },
        }
        i = i + 1;
    }
    assert(all.take(ss@.len() as int) =~= all);
    Some(out)
}

/// Once generating stops on a failure, generating for more names stops on
/// the same one.
proof fn lemma_failure_stays(files: Seq<FileModel>, names: Seq<Seq<char>>, i: int, j: int)
    requires
        0 <= i <= j <= names.len(),
        !(generated(files, names.take(i)) is Done),
    ensures
        generated(files, names.take(j)) == generated(files, names.take(i)),
    decreases j - i,
{
    if j > i {
        lemma_failure_stays(files, names, i, j - 1);
        assert(names.take(j).drop_last() =~= names.take(j - 1));
    }
}

fn find_file(files: &Vec<DescribedFile>, name: &str) -> (r: Option<usize>)
    ensures
        match file_named(files@.map_values(|f: DescribedFile| f@), name@) {
            None => r is None,
            Some(f) => r matches Some(k) && k < files@.len() && files@[k as int]@ == f,
        },
{
    let ghost fs = files@.map_values(|f: DescribedFile| f@);
    let mut i: usize = files.len();
    assert(fs.take(i as int) =~= fs);
    while i > 0
        invariant
            i <= files@.len(),
            fs == files@.map_values(|f: DescribedFile| f@),
            file_named(fs, name@) == file_named(fs.take(i as int), name@),
        decreases i,
    {
        assert(fs.take(i as int).drop_last() =~= fs.take(i - 1));
        if crate::text::str_eq(files[i - 1].name.as_str(), name) {
            return Some(i - 1);
        }
        i = i - 1;
    }
    assert(fs.take(0) =~= Seq::<FileModel>::empty());
    None
}

/// `r` is what generating comes to when the model says `g`.
pub open spec fn generation_matches(g: GenerationModel, r: Result<Vec<(String, String)>, GenerateError>) -> bool {
    match g {
        GenerationModel::Done(out) => r matches Ok(v) && v@.map_values(|p: (String, String)| (p.0@, p.1@)) == out,
        GenerationModel::Missing(n) => r matches Err(GenerateError::NotInDescriptor(s)) && s@ == n,
        GenerationModel::UnknownMessage => r == Err::<Vec<(String, String)>, GenerateError>(
            GenerateError::UnknownMessage,
        ),
        GenerationModel::NotProtoFile(n) => r matches Err(GenerateError::NotProtoFile(s)) && s@ == n,
        GenerationModel::BadName => r matches Err(GenerateError::BadName(_)),
    }
}

/// The generated files, each a name and a text, for the files named
/// `selected` among the described files `files`, in order: a selected file
/// that declares no service gives no code; the others give their code once
/// the messages of their methods resolve to Rust paths.
pub fn generate_from_files(files: &Vec<DescribedFile>, selected: &Vec<String>) -> (r: Result<
    Vec<(String, String)>,
    GenerateError,
>)
    ensures
        generation_matches(
            generated(files@.map_values(|f: DescribedFile| f@), selected@.map_values(|s: String| s@)),
            r,
        ),
{
    let ghost fs = files@.map_values(|f: DescribedFile| f@);
    let ghost names = selected@.map_values(|s: String| s@);
    let mut out: Vec<(String, String)> = Vec::new();
    let mut i: usize = 0;
    assert(names.take(0) =~= Seq::<Seq<char>>::empty());
    assert(out@.map_values(|p: (String, String)| (p.0@, p.1@)) =~= Seq::<(Seq<char>, Seq<char>)>::empty());
    while i < selected.len()
        invariant
            i <= selected@.len(),
            names == selected@.map_values(|s: String| s@),
            fs == files@.map_values(|f: DescribedFile| f@),
            generated(fs, names.take(i as int)) == GenerationModel::Done(
                out@.map_values(|p: (String, String)| (p.0@, p.1@)),
            ),
        decreases selected@.len() - i,
    {
        let ghost before = out@.map_values(|p: (String, String)| (p.0@, p.1@));
        assert(names.take(i + 1).drop_last() =~= names.take(i as int));
        assert(names.take(i + 1).last() == selected@[i as int]@);
        match find_file(files, selected[i].as_str()) {
            None => {
                let missing = selected[i].clone();
                assert(missing@ == selected@[i as int]@);
                proof {
                    assert(generated(fs, names.take(i + 1)) == GenerationModel::Missing(selected@[i as int]@));
                    lemma_failure_stays(fs, names, i + 1, names.len() as int);
                    assert(names.take(names.len() as int) =~= names);
                }
                return Err(GenerateError::NotInDescriptor(missing));
            },
            Some(k) => {
                let file = &files[k];
                if file.services.len() > 0 {
                    let services = match resolve_services(files, &file.services) {
                        None => {
                            proof {
                                assert(generated(fs, names.take(i + 1)) == GenerationModel::UnknownMessage);
                                lemma_failure_stays(fs, names, i + 1, names.len() as int);
                                assert(names.take(names.len() as int) =~= names);
                            }
                            return Err(GenerateError::UnknownMessage);
                        },
                        Some(v) => v,
                    };
                    let ghost ss = services_of(services@);
                    if !is_proto_file(file.name.as_str()) {
                        let bad = file.name.clone();
                        proof {
                            assert(generated(fs, names.take(i + 1)) == GenerationModel::NotProtoFile(file@.0));
                            lemma_failure_stays(fs, names, i + 1, names.len() as int);
                            assert(names.take(names.len() as int) =~= names);
                        }
                        return Err(GenerateError::NotProtoFile(bad));
                    }
                    let base = rust_mod_of(file.name.as_str());
                    match gen_file(base.as_str(), &services) {
                        Ok(generated_file) => {
                            proof {
                                assert forall|j: int| 0 <= j < ss.len() implies names_in_snake_case(
                                    #[trigger] ss[j].1,
                                ) by {
                                    assert(ss[j].1 == methods_of(services@[j]));
                                }
                            }
                            out.push(generated_file);
                            assert(out@.map_values(|p: (String, String)| (p.0@, p.1@)) =~= before.push(
                                (rust_mod_name(file@.0) + "_copra.rs"@, crate::generator::file_text(ss)),
                            ));
                        },
                        Err(e) => {
                            proof {
                                let j = choose|j: int|
                                    0 <= j < services@.len() && !names_in_snake_case(
                                        methods_of(#[trigger] services@[j]),
                                    );
                                assert(ss[j].1 == methods_of(services@[j]));
                                assert(!service_names_fit(ss));
                                assert(generated(fs, names.take(i + 1)) == GenerationModel::BadName);
                                lemma_failure_stays(fs, names, i + 1, names.len() as int);
                                assert(names.take(names.len() as int) =~= names);
                            }
                            return Err(GenerateError::BadName(e));
                        },
                    }
                }
            },
        }
        i = i + 1;
    }
    assert(names.take(names.len() as int) =~= names);
    Ok(out)
}


/// The generated files, each a name and a text, for the `input` files of
/// the descriptor set `fds`, found relative to `includes` (`.` when there
/// are none).
///
/// Fails when the bytes are no descriptor set, when an input lies below no
/// include directory, when the set has no file of a selected name, when a
/// method's message is not a message of the set, when a file with services
/// is not a `.proto` file, or when a method name is not in snake case. A
/// selected file that declares no service gives no code.
pub fn generate_files(fds: &[u8], input: &[&str], includes: &[&str]) -> (r: Result<
    Vec<(String, String)>,
    GenerateError,
>)
    ensures
        match descriptor_files(fds@) {
            None => r == Err::<Vec<(String, String)>, GenerateError>(GenerateError::BadDescriptor),
            Some(files) => match relative_inputs(
                input@.map_values(|s: &str| s@),
                includes@.map_values(|s: &str| s@),
            ) {
                None => r matches Err(GenerateError::NotInIncludes(f)) && exists|k: int|
                    0 <= k < input@.len() && #[trigger] input@[k]@ == f@ && relative_path(
                        f@,
                        effective_includes(includes@.map_values(|s: &str| s@)),
                    ) is None && forall|j: int|
                        0 <= j < k ==> relative_path(
                            input@[j]@,
                            effective_includes(includes@.map_values(|s: &str| s@)),
                        ) is Some,
                Some(names) => generation_matches(generated(files, names), r),
            },
        },
{
    let files = match parse_descriptor_set(fds) {
        None => return Err(GenerateError::BadDescriptor),
        Some(files) => files,
    };
    let ghost fs = files@.map_values(|f: DescribedFile| f@);
    let ghost ins = input@.map_values(|s: &str| s@);
    let ghost incs = effective_includes(includes@.map_values(|s: &str| s@));
    let to_generate = match files_to_generate(input, includes) {
        Err(e) => {
            proof {
                let f = e->NotInIncludes_0;
                let k = choose|k: int|
                    0 <= k < input@.len() && #[trigger] input@[k]@ == f@ && relative_path(f@, incs) is None
                        && forall|j: int| 0 <= j < k ==> relative_path(input@[j]@, incs) is Some;
                assert(relative_path(ins[k], incs) is None);
            }
            return Err(e);
        },
        Ok(v) => v,
    };
    let ghost names = to_generate@.map_values(|s: String| s@);
    proof {
        assert forall|k: int| 0 <= k < ins.len() implies (#[trigger] relative_path(ins[k], incs)) is Some by {
            assert(relative_path(input@[k]@, incs) == Some(to_generate@[k]@));
        }
        assert(names =~= Seq::new(ins.len(), |k: int| relative_path(ins[k], incs)->0));
        assert(relative_inputs(ins, includes@.map_values(|s: &str| s@)) == Some(names));
    }
    generate_from_files(&files, &to_generate)
}

} // verus!
