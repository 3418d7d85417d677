use activator::bootstrap::BuiltinFactory;
use activator::{
    Application, BootstrapError, Bootstrapper, Config, InstanceConfig, InstanceRegistry,
    ProviderConfigRef, ProviderError, RegistryError, ServerConfig,
};

fn args(list: &[&str]) -> Vec<String> {
    list.iter().map(|s| s.to_string()).collect()
}

fn instance(id: &str, provider: &str, path: Option<&str>) -> InstanceConfig {
    InstanceConfig {
        id: id.to_string(),
        provider: provider.to_string(),
        allowed_origins: vec![format!("https://{id}.example")],
        provider_config: path.map(|p| ProviderConfigRef::File { path: p.to_string() }),
    }
}

fn config(instances: Vec<InstanceConfig>) -> Config {
    Config { server: ServerConfig { host: "0.0.0.0".to_string(), port: 8080 }, instances }
}

/// Builds a description of each provider: its type and the path it got.
fn describe(f: &BuiltinFactory, path: Option<String>) -> Result<String, ProviderError> {
    match f {
        BuiltinFactory::Mock(_) => Ok(format!("mock:{}", path.unwrap_or_default())),
        BuiltinFactory::Oci(_) => Ok(format!("oci:{}", path.unwrap_or_default())),
    }
}

#[test]
fn config_dir_flag_wins() {
    assert_eq!(
        Bootstrapper::resolve_config_dir(&args(&["--config-dir", "/srv/cfg"]), Some("/env".to_string())),
        "/srv/cfg"
    );
    assert_eq!(
        Bootstrapper::resolve_config_dir(&args(&["-v", "--config-dir", "a", "--config-dir", "b"]), None),
        "a"
    );
}

#[test]
fn config_dir_falls_back_to_environment_then_default() {
    assert_eq!(Bootstrapper::resolve_config_dir(&args(&[]), Some("/env".to_string())), "/env");
    assert_eq!(Bootstrapper::resolve_config_dir(&args(&["--config-dir"]), Some("/env".to_string())), "/env");
    assert_eq!(Bootstrapper::resolve_config_dir(&args(&["--other", "x"]), None), "./config");
}

#[test]
fn paths_join_like_unix_paths() {
    assert_eq!(Bootstrapper::join_config_path("./config", "instances/web.yaml"), "./config/instances/web.yaml");
    assert_eq!(Bootstrapper::join_config_path("/etc/cfg/", "web.yaml"), "/etc/cfg/web.yaml");
    assert_eq!(Bootstrapper::join_config_path("/etc/cfg", "/abs/web.yaml"), "/abs/web.yaml");
    assert_eq!(Bootstrapper::join_config_path("", "web.yaml"), "web.yaml");
    assert_eq!(Bootstrapper::join_config_path("cfg", ""), "cfg/");
}

#[test]
fn instances_are_built_and_registered_in_order() {
    let factories = Bootstrapper::build_factory_registry();
    let cfg = config(vec![
        instance("website", "oracle-oci", Some("instances/website.yaml")),
        instance("demo", "mock", None),
    ]);
    let registry = Bootstrapper::build_instance_registry(&cfg, "./config", &factories, &describe)
        .ok()
        .expect("registry");
    assert_eq!(registry.len(), 2);
    let website = registry.get("website").ok().unwrap();
    assert_eq!(website.provider, "oci:./config/instances/website.yaml");
    assert_eq!(website.allowed_origins, vec!["https://website.example".to_string()]);
    assert_eq!(registry.get("demo").ok().unwrap().provider, "mock:");
}

#[test]
fn unknown_provider_stops_bootstrap() {
    let factories = Bootstrapper::build_factory_registry();
    let cfg = config(vec![instance("a", "mock", None), instance("b", "aws", None)]);
    match Bootstrapper::build_instance_registry(&cfg, "cfg", &factories, &describe) {
        Err(BootstrapError::UnknownProvider { instance, lookup: RegistryError::UnknownProviderType(t) }) => {
            assert_eq!((instance.as_str(), t.as_str()), ("b", "aws"))
        },
        _ => panic!("expected an unknown provider"),
    }
}

#[test]
fn provider_creation_failure_stops_bootstrap() {
    let factories = Bootstrapper::build_factory_registry();
    let cfg = config(vec![instance("a", "oracle-oci", None)]);
    let create = |_f: &BuiltinFactory, path: Option<String>| -> Result<u8, ProviderError> {
        match path {
            Some(_) => Ok(1),
            None => Err(ProviderError::Message("oracle-oci provider requires provider_config".to_string())),
        }
    };
    match Bootstrapper::build_instance_registry(&cfg, "cfg", &factories, &create) {
        Err(BootstrapError::ProviderCreation { instance, failure }) => {
            assert_eq!(instance, "a");
            assert_eq!(failure.message(), "oracle-oci provider requires provider_config");
        },
        _ => panic!("expected a creation failure"),
    }
}

#[test]
fn duplicate_instance_stops_bootstrap() {
    let factories = Bootstrapper::build_factory_registry();
    let cfg = config(vec![instance("a", "mock", None), instance("a", "mock", None)]);
    match Bootstrapper::build_instance_registry(&cfg, "cfg", &factories, &describe) {
        Err(BootstrapError::Registration(RegistryError::DuplicateInstance(id))) => assert_eq!(id, "a"),
        _ => panic!("expected a duplicate registration"),
    }
}

#[test]
fn application_listens_on_host_and_port() {
    let registry: InstanceRegistry<()> = InstanceRegistry::new();
    let app = Application::new(registry, ServerConfig { host: "0.0.0.0".to_string(), port: 8080 });
    assert_eq!(app.listen_address(), "0.0.0.0:8080");
    assert_eq!(app.registry().len(), 0);
    let app2 = Application::new(InstanceRegistry::<()>::new(), ServerConfig { host: "::1".to_string(), port: 7 });
    assert_eq!(app2.listen_address(), "::1:7");
    let app3 = Application::new(InstanceRegistry::<()>::new(), ServerConfig { host: "h".to_string(), port: 65535 });
    assert_eq!(app3.listen_address(), "h:65535");
    let (registry, server) = app.into_parts();
    assert_eq!(registry.len(), 0);
    assert_eq!(server.port, 8080);
}
