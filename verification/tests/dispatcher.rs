use copra::dispatcher::{DispatchError, NamedRegistrant, Registrant, ServiceRegistry};

struct Calc;

impl Registrant<u32> for Calc {
    fn methods(&self) -> Vec<(String, u32)> {
        vec![("add".to_string(), 1), ("sub".to_string(), 2), ("add".to_string(), 3)]
    }
}

impl NamedRegistrant<u32> for Calc {
    fn name() -> &'static str {
        "Calc"
    }
}

#[test]
fn registered_method_is_found() {
    let mut registry: ServiceRegistry<u32> = ServiceRegistry::new();
    registry.register_service(Calc);
    assert_eq!(registry.len(), 1);
    // Of two methods of one name the last one counts.
    assert_eq!(registry.get_method("Calc".to_string(), "add".to_string()), Ok(&3));
    assert_eq!(registry.get_method("Calc".to_string(), "sub".to_string()), Ok(&2));
}

#[test]
fn unknown_service_and_method() {
    let mut registry: ServiceRegistry<u32> = ServiceRegistry::new();
    registry.register_methods("Calc".to_string(), vec![("add".to_string(), 1)]);
    assert_eq!(
        registry.get_method("Nope".to_string(), "add".to_string()),
        Err(DispatchError::ServiceNotFound("Nope".to_string()))
    );
    assert_eq!(
        registry.get_method("Calc".to_string(), "mul".to_string()),
        Err(DispatchError::MethodNotFound("Calc".to_string(), "mul".to_string()))
    );
}

#[test]
fn registering_again_replaces_the_service() {
    let mut registry: ServiceRegistry<u32> = ServiceRegistry::new();
    registry.register_methods("A".to_string(), vec![("x".to_string(), 1)]);
    registry.register_methods("B".to_string(), vec![("y".to_string(), 2)]);
    registry.register_methods("A".to_string(), vec![("z".to_string(), 3)]);
    assert_eq!(registry.len(), 2);
    assert!(registry.get_method("A".to_string(), "x".to_string()).is_err());
    assert_eq!(registry.get_method("A".to_string(), "z".to_string()), Ok(&3));
    assert_eq!(registry.get_method("B".to_string(), "y".to_string()), Ok(&2));
}

#[test]
fn dispatch_error_texts() {
    let e = DispatchError::ServiceNotFound("Echo".to_string());
    assert_eq!(e.to_string(), "service Echo not found");
    assert_eq!(e.description(), "service not found");
    let e = DispatchError::MethodNotFound("Echo".to_string(), "shout".to_string());
    assert_eq!(e.to_string(), "method shout not found in Echo");
    assert_eq!(e.description(), "method not found");
}
