use copra::codegen::{
    files_to_generate, generate_file_header, remove_dot_slash, remove_path_prefix, Args,
    GenerateError,
};

#[test]
fn dot_slash_is_removed() {
    assert_eq!(remove_dot_slash("."), "");
    assert_eq!(remove_dot_slash("./a/b.proto"), "a/b.proto");
    assert_eq!(remove_dot_slash(".\\a.proto"), "a.proto");
    assert_eq!(remove_dot_slash("a/b.proto"), "a/b.proto");
    assert_eq!(remove_dot_slash(".."), "..");
}

#[test]
fn path_prefix_is_removed() {
    assert_eq!(remove_path_prefix("a/b.proto", ""), Some("a/b.proto".to_string()));
    assert_eq!(remove_path_prefix("./a/b.proto", "."), Some("a/b.proto".to_string()));
    assert_eq!(remove_path_prefix("protos/b.proto", "protos"), Some("b.proto".to_string()));
    assert_eq!(remove_path_prefix("protos/b.proto", "./protos/"), Some("b.proto".to_string()));
    assert_eq!(remove_path_prefix("protos\\b.proto", "protos"), Some("b.proto".to_string()));
    assert_eq!(remove_path_prefix("protosx/b.proto", "protos"), None);
    assert_eq!(remove_path_prefix("protos", "protos"), None);
    assert_eq!(remove_path_prefix("other/b.proto", "protos"), None);
}

#[test]
fn files_are_resolved_against_includes() {
    assert_eq!(
        files_to_generate(&["protos/a.proto", "x/b.proto"], &["protos", "x"]),
        Ok(vec!["a.proto".to_string(), "b.proto".to_string()])
    );
    assert_eq!(
        files_to_generate(&["./a.proto"], &[]),
        Ok(vec!["a.proto".to_string()])
    );
    assert_eq!(
        files_to_generate(&["a.proto", "y/b.proto"], &["x"]),
        Err(GenerateError::NotInIncludes("a.proto".to_string()))
    );
}

#[test]
fn file_header_text() {
    assert_eq!(
        generate_file_header(),
        "// This file is generated, Do not edit\n// @generated\n\n#![cfg_attr(rustfmt, rustfmt_skip)]\n#![allow(missing_docs)]\n#![allow(dead_code)]\n"
    );
}

#[test]
fn args_default() {
    let args: Args = Args::default();
    assert_eq!(args.out_dir, "");
    assert!(args.includes.is_empty());
    assert!(args.input.is_empty());
    assert!(!args.rust_protobuf);
}
