use copra::generator::{
    future_names, gen_file, generate_client_stub, generate_registrant_basic,
    generate_registrant_service, generate_service_trait, method_names, registrant_name,
    request_types, response_types, service_name, stub_name, trait_name, wrapper_names, MethodSpec,
    NameError, ServiceSpec,
};

fn method(name: &str, input: &str, output: &str) -> MethodSpec {
    MethodSpec { name: name.to_string(), input_type: input.to_string(), output_type: output.to_string() }
}

fn echo_service() -> ServiceSpec {
    ServiceSpec {
        name: "Echo".to_string(),
        methods: vec![
            method("echo", "echo::EchoRequest", "echo::EchoResponse"),
            method("rev_echo", "echo::EchoRequest", "echo::EchoResponse"),
        ],
    }
}

// The expected stub, written out with the same templates as the generator.
fn expected_stub(service: &str, methods: &[(&str, &str, &str)]) -> String {
    let stub = format!("{}Stub", service);
    let mut gen = String::new();
    gen = gen + &format!("\n#[derive(Clone)]\npub struct {}<'a> {{", stub);
    for (m, req, resp) in methods {
        gen = gen
            + &format!(
                "\n    {}_wrapper: ::copra::stub::RpcWrapper<'a,\n        ::copra::codec::ProtobufCodec<super::{}, super::{}>>,\n",
                m, resp, req
            );
    }
    gen = gen
        + &format!(
            "}}\n\nimpl<'a> {}<'a> {{\n    pub fn new(channel: &'a ::copra::channel::Channel) -> Self {{\n        {} {{",
            stub, stub
        );
    for (m, _, _) in methods {
        gen = gen
            + &format!(
                "\n            {}_wrapper: ::copra::stub::RpcWrapper::new(\n                ::copra::codec::ProtobufCodec::new(), channel\n            ),\n",
                m
            );
    }
    gen = gen + "        }\n    }\n";
    for (m, req, resp) in methods {
        gen = gen
            + &format!(
                "\n    pub fn {}(\n        &'a self, \n        msg: super::{},\n    ) -> ::copra::stub::StubFuture<\n        ::copra::codec::ProtobufCodec<\n            super::{},\n            super::{},\n        >,\n    > {{\n        self.{}_wrapper\n            .call((msg, \"{}\".to_string(), \"{}\".to_string()))\n    }}\n",
                m, req, resp, req, m, service, m
            );
    }
    gen + "}\n"
}

#[test]
fn names_of_a_service() {
    let s = echo_service();
    assert_eq!(service_name(&s), "Echo");
    assert_eq!(registrant_name(&s), "EchoRegistrant");
    assert_eq!(trait_name(&s), "EchoService");
    assert_eq!(stub_name(&s), "EchoStub");
    assert_eq!(method_names(&s), Ok(vec!["echo".to_string(), "rev_echo".to_string()]));
    assert_eq!(future_names(&s), Ok(vec!["EchoFuture".to_string(), "RevEchoFuture".to_string()]));
    assert_eq!(
        wrapper_names(&s),
        Ok(vec!["echo_wrapper".to_string(), "rev_echo_wrapper".to_string()])
    );
    assert_eq!(request_types(&s)[0], "super::echo::EchoRequest");
    assert_eq!(response_types(&s)[1], "super::echo::EchoResponse");
}

#[test]
fn method_names_must_be_snake_case() {
    let mut s = echo_service();
    s.methods.push(method("RevEcho", "a::B", "a::C"));
    assert_eq!(method_names(&s), Err(NameError::NotSnakeCase));
    assert_eq!(generate_client_stub(&s), Err(NameError::NotSnakeCase));
    assert_eq!(NameError::NotSnakeCase.to_string(), "Method name should be snake_case");
}

#[test]
fn service_trait_text() {
    let s = ServiceSpec { name: "Echo".to_string(), methods: vec![method("echo", "e::Req", "e::Resp")] };
    assert_eq!(
        generate_service_trait(&s).unwrap(),
        "pub trait EchoService {\n    type EchoFuture: ::futures::Future<\n        Item = (super::e::Resp, ::copra::controller::Controller), \n        Error = ::copra::service::ProviderSetError,\n    > + 'static;\n\n    fn echo(&self, msg: (super::e::Req, ::copra::controller::Controller)) -> Self::EchoFuture;\n}"
    );
}

#[test]
fn registrant_texts() {
    let s = ServiceSpec { name: "Echo".to_string(), methods: vec![method("echo", "e::Req", "e::Resp")] };
    assert_eq!(
        generate_registrant_basic(&s),
        "\npub struct EchoRegistrant<S> {\n    provider: S,\n}\n\nimpl<S> EchoRegistrant<S> {\n    pub fn new(provider: S) -> Self {\n        EchoRegistrant { provider }\n    }\n}"
    );
    let text = generate_registrant_service(&s).unwrap();
    assert!(text.starts_with("\nimpl<S> ::copra::dispatcher::Registrant for EchoRegistrant<S>\nwhere\n    S: EchoService + Clone + Send + Sync + 'static,\n"));
    assert!(text.contains("                type Future = <S as EchoService>::EchoFuture;\n"));
    assert!(text.contains("                \"echo\".to_string(), \n"));
    assert!(text.ends_with("fn name() -> &'static str {\n        \"Echo\"\n    }\n}"));
}

#[test]
fn client_stub_text() {
    let s = echo_service();
    assert_eq!(
        generate_client_stub(&s).unwrap(),
        expected_stub(
            "Echo",
            &[("echo", "echo::EchoRequest", "echo::EchoResponse"), ("rev_echo", "echo::EchoRequest", "echo::EchoResponse")]
        )
    );
}

#[test]
fn generated_file() {
    let s = ServiceSpec { name: "Echo".to_string(), methods: vec![method("echo", "e::Req", "e::Resp")] };
    let (name, text) = gen_file("echo", &vec![s.clone()]).unwrap();
    assert_eq!(name, "echo_copra.rs");
    assert!(text.starts_with("// This file is generated, Do not edit\n// @generated\n"));
    let expected_tail = format!(
        "\n{}\n{}\n{}\n{}",
        generate_service_trait(&s).unwrap(),
        generate_registrant_basic(&s),
        generate_registrant_service(&s).unwrap(),
        generate_client_stub(&s).unwrap()
    );
    assert!(text.ends_with(&expected_tail));
}

#[test]
fn registrant_and_stub_share_names() {
    let s = echo_service();
    let registrant = generate_registrant_service(&s).unwrap();
    let stub = generate_client_stub(&s).unwrap();
    assert!(registrant.contains("fn name() -> &'static str {\n        \"Echo\""));
    let mut at = 0;
    for m in &["echo", "rev_echo"] {
        let key = format!("\"{}\".to_string()", m);
        let found = registrant[at..].find(&key).unwrap();
        at += found + key.len();
        assert!(stub.contains(&format!("\"Echo\".to_string(), \"{}\".to_string()", m)));
    }
}
