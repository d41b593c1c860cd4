use copra::codegen::GenerateError;
use copra::descriptor::{
    generate_files, generate_from_files, DescribedFile, DescribedMethod, DescribedService, DescribedType,
};
use copra::generator::{gen_file, MethodSpec, ServiceSpec};
use protobuf::descriptor::{
    DescriptorProto, FileDescriptorProto, FileDescriptorSet, MethodDescriptorProto, ServiceDescriptorProto,
};
use protobuf::Message;

fn file(name: &str, with_service: bool, method: &str) -> FileDescriptorProto {
    file_with_input(name, with_service, method, ".pkg.Req")
}

fn file_with_input(name: &str, with_service: bool, method: &str, input: &str) -> FileDescriptorProto {
    let mut f = FileDescriptorProto::new();
    f.set_name(name.to_string());
    f.set_package("pkg".to_string());
    let mut msg = DescriptorProto::new();
    msg.set_name("Req".to_string());
    f.mut_message_type().push(msg);
    if with_service {
        let mut m = MethodDescriptorProto::new();
        m.set_name(method.to_string());
        m.set_input_type(input.to_string());
        m.set_output_type(".pkg.Req".to_string());
        let mut s = ServiceDescriptorProto::new();
        s.set_name("Calc".to_string());
        s.mut_method().push(m);
        f.mut_service().push(s);
    }
    f
}

fn set_bytes(files: Vec<FileDescriptorProto>) -> Vec<u8> {
    let mut set = FileDescriptorSet::new();
    for f in files {
        set.mut_file().push(f);
    }
    set.write_to_bytes().unwrap()
}

#[test]
fn service_file_is_generated() {
    let bytes = set_bytes(vec![file("b.proto", true, "add")]);
    let out = generate_files(&bytes, &["a/b.proto"], &["a"]).unwrap();
    let services = vec![ServiceSpec {
        name: "Calc".to_string(),
        methods: vec![MethodSpec {
            name: "add".to_string(),
            input_type: "b::Req".to_string(),
            output_type: "b::Req".to_string(),
        }],
    }];
    assert_eq!(out, vec![gen_file("b", &services).unwrap()]);
    assert_eq!(out[0].0, "b_copra.rs");
}

#[test]
fn file_without_service_gives_nothing() {
    let bytes = set_bytes(vec![file("b.proto", false, "add")]);
    assert_eq!(generate_files(&bytes, &["b.proto"], &[]), Ok(vec![]));
}

#[test]
fn descriptor_failures() {
    assert_eq!(generate_files(&[0x0f], &["b.proto"], &[]), Err(GenerateError::BadDescriptor));
    let bytes = set_bytes(vec![file("b.proto", true, "add")]);
    assert_eq!(
        generate_files(&bytes, &["c/b.proto"], &["a"]),
        Err(GenerateError::NotInIncludes("c/b.proto".to_string()))
    );
    assert_eq!(
        generate_files(&bytes, &["x.proto"], &[]),
        Err(GenerateError::NotInDescriptor("x.proto".to_string()))
    );
    let bytes = set_bytes(vec![file("b.proto", true, "Add")]);
    assert!(matches!(generate_files(&bytes, &["b.proto"], &[]), Err(GenerateError::BadName(_))));
}

#[test]
fn unresolved_messages_and_odd_files_fail() {
    let bytes = set_bytes(vec![file_with_input("b.proto", true, "add", ".pkg.Nope")]);
    assert_eq!(generate_files(&bytes, &["b.proto"], &[]), Err(GenerateError::UnknownMessage));
    let bytes = set_bytes(vec![file_with_input("b.proto", true, "add", "pkg.Req")]);
    assert_eq!(generate_files(&bytes, &["b.proto"], &[]), Err(GenerateError::UnknownMessage));
    let bytes = set_bytes(vec![file("c.txt", true, "add")]);
    assert_eq!(generate_files(&bytes, &["c.txt"], &[]), Err(GenerateError::UnknownMessage));
    let bytes = set_bytes(vec![file("b.proto", false, "add"), file("c.txt", true, "add")]);
    assert_eq!(
        generate_files(&bytes, &["c.txt"], &[]),
        Err(GenerateError::NotProtoFile("c.txt".to_string()))
    );
    assert_eq!(
        generate_files(&[0x0a, 0x00], &["b.proto"], &[]),
        Err(GenerateError::NotInDescriptor("b.proto".to_string()))
    );
}

#[test]
fn described_files_generate_directly() {
    let files = vec![DescribedFile {
        name: "b.proto".to_string(),
        package: "pkg".to_string(),
        types: vec![DescribedType { name: "Req".to_string(), rust_name: "Req".to_string(), message: true }],
        services: vec![DescribedService {
            name: "Calc".to_string(),
            methods: vec![DescribedMethod {
                name: "add".to_string(),
                input_type: ".pkg.Req".to_string(),
                output_type: ".pkg.Req".to_string(),
            }],
        }],
    }];
    let services = vec![ServiceSpec {
        name: "Calc".to_string(),
        methods: vec![MethodSpec {
            name: "add".to_string(),
            input_type: "b::Req".to_string(),
            output_type: "b::Req".to_string(),
        }],
    }];
    assert_eq!(
        generate_from_files(&files, &vec!["b.proto".to_string()]),
        Ok(vec![gen_file("b", &services).unwrap()])
    );
    assert_eq!(
        generate_from_files(&files, &vec!["c.proto".to_string()]),
        Err(GenerateError::NotInDescriptor("c.proto".to_string()))
    );
}

#[test]
fn first_input_outside_includes_is_reported() {
    let bytes = set_bytes(vec![file("b.proto", true, "add")]);
    assert_eq!(
        generate_files(&bytes, &["x/a.proto", "y/b.proto"], &["z"]),
        Err(GenerateError::NotInIncludes("x/a.proto".to_string()))
    );
}
