use std::sync::Arc;

use activator::bootstrap::BuiltinFactory;
use activator::{
    Bootstrapper, InstanceRegistry, ProviderFactory, ProviderFactoryRegistry, RegistryError,
};

fn origins(list: &[&str]) -> Vec<String> {
    list.iter().map(|s| s.to_string()).collect()
}

#[test]
fn registered_instance_is_found_with_its_origins() {
    let mut registry: InstanceRegistry<u32> = InstanceRegistry::new();
    assert!(registry
        .register("website".to_string(), 7, origins(&["https://mywebsite.com"]))
        .is_ok());
    let found = registry.get("website").ok().expect("registered");
    assert_eq!(found.provider, 7);
    assert_eq!(found.allowed_origins, origins(&["https://mywebsite.com"]));
    assert_eq!(registry.len(), 1);
}

#[test]
fn duplicate_registration_is_refused_and_changes_nothing() {
    let mut registry: InstanceRegistry<u32> = InstanceRegistry::new();
    registry.register("a".to_string(), 1, vec![]).ok().unwrap();
    let err = registry.register("a".to_string(), 2, vec![]).err().expect("duplicate");
    assert!(matches!(&err, RegistryError::DuplicateInstance(id) if id == "a"));
    assert_eq!(err.message(), "instance 'a' is already registered");
    assert_eq!(registry.get("a").ok().unwrap().provider, 1);
    assert_eq!(registry.len(), 1);
}

#[test]
fn unknown_instance_is_not_found() {
    let registry: InstanceRegistry<u32> = InstanceRegistry::new();
    let err = registry.get("nope").err().expect("missing");
    assert!(matches!(&err, RegistryError::InstanceNotFound(id) if id == "nope"));
    assert_eq!(err.message(), "instance 'nope' was not found");
    assert_eq!(registry.len(), 0);
}

#[test]
fn registry_counts_distinct_instances() {
    let mut registry: InstanceRegistry<&str> = InstanceRegistry::new();
    registry.register("a".to_string(), "pa", vec![]).ok().unwrap();
    registry.register("b".to_string(), "pb", vec![]).ok().unwrap();
    assert!(registry.register("a".to_string(), "pc", vec![]).is_err());
    registry.register("c".to_string(), "pc", vec![]).ok().unwrap();
    assert_eq!(registry.len(), 3);
    assert_eq!(registry.get("b").ok().unwrap().provider, "pb");
    assert_eq!(registry.get("c").ok().unwrap().provider, "pc");
}

#[test]
fn builtin_factories_are_found_by_type() {
    let factories = Bootstrapper::build_factory_registry();
    let mock = factories.get("mock").ok().expect("mock");
    assert!(matches!(*mock, BuiltinFactory::Mock(_)));
    assert_eq!(mock.provider_type(), "mock");
    let oci = factories.get("oracle-oci").ok().expect("oci");
    assert!(matches!(*oci, BuiltinFactory::Oci(_)));
    assert_eq!(oci.provider_type(), "oracle-oci");
}

#[test]
fn unknown_provider_type_is_reported() {
    let factories = Bootstrapper::build_factory_registry();
    let err = factories.get("aws").err().expect("unknown");
    assert!(matches!(&err, RegistryError::UnknownProviderType(t) if t == "aws"));
    assert_eq!(err.message(), "no provider factory registered for type 'aws'");
}

#[test]
fn last_factory_registration_wins() {
    let mut factories: ProviderFactoryRegistry<BuiltinFactory> = ProviderFactoryRegistry::new();
    factories.register(Arc::new(BuiltinFactory::Mock(activator::MockProviderFactory)));
    let first = factories.get("mock").ok().unwrap();
    factories.register(Arc::new(BuiltinFactory::Mock(activator::MockProviderFactory)));
    let second = factories.get("mock").ok().unwrap();
    assert!(!Arc::ptr_eq(&first, &second));
    assert!(factories.get("oracle-oci").is_err());
}
