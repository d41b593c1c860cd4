use copra::protocol::Protocol;

#[test]
fn it_works() {
    assert_eq!(2 + 2, 4);
}

#[test]
fn protocol_variants_differ() {
    assert_ne!(Protocol::Brpc, Protocol::Http);
}
