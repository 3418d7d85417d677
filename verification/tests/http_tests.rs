use activator::http::{
    extract_instance_id, find_instance, guard_decision, start_reply, status_reply, GuardAction,
    ORIGIN_REJECTED_MESSAGE, PREFLIGHT_ALLOW_HEADERS, PREFLIGHT_ALLOW_METHODS,
};
use activator::{ApiError, InstanceRegistry, InstanceState, ProviderError, RegistryError};

fn registry() -> InstanceRegistry<()> {
    let mut r = InstanceRegistry::new();
    r.register(
        "website".to_string(),
        (),
        vec!["https://mywebsite.com".to_string(), "http://localhost:3000".to_string()],
    )
    .ok()
    .unwrap();
    r
}

#[test]
fn instance_id_is_taken_from_api_paths() {
    assert_eq!(extract_instance_id("/v1/instances/website/status").as_deref(), Some("website"));
    assert_eq!(extract_instance_id("/v1/instances/website/start").as_deref(), Some("website"));
    assert_eq!(extract_instance_id("/v1/instances/website").as_deref(), Some("website"));
    assert_eq!(extract_instance_id("v1/instances/game").as_deref(), Some("game"));
    assert_eq!(extract_instance_id("///v1/instances/x/y/z").as_deref(), Some("x"));
    assert_eq!(extract_instance_id("/v1/instances/").as_deref(), Some(""));
}

#[test]
fn other_paths_name_no_instance() {
    assert_eq!(extract_instance_id("/v1/instances"), None);
    assert_eq!(extract_instance_id("/v2/instances/website/status"), None);
    assert_eq!(extract_instance_id("/v1/instance/website"), None);
    assert_eq!(extract_instance_id("/"), None);
    assert_eq!(extract_instance_id(""), None);
    assert_eq!(extract_instance_id("/health"), None);
}

#[test]
fn request_without_origin_passes() {
    let r = registry();
    assert!(matches!(guard_decision(&r, "/v1/instances/website/start", None, false), GuardAction::Forward));
    assert!(matches!(guard_decision(&r, "/v1/instances/website/start", None, true), GuardAction::Forward));
}

#[test]
fn disallowed_origin_is_rejected() {
    let r = registry();
    let action =
        guard_decision(&r, "/v1/instances/website/status", Some("https://evil.example".to_string()), false);
    assert!(matches!(action, GuardAction::Reject));
    let preflight =
        guard_decision(&r, "/v1/instances/website/status", Some("https://evil.example".to_string()), true);
    assert!(matches!(preflight, GuardAction::Reject));
    assert_eq!(ORIGIN_REJECTED_MESSAGE, "origin not allowed");
}

#[test]
fn allowed_origin_is_echoed() {
    let r = registry();
    match guard_decision(&r, "/v1/instances/website/status", Some("http://localhost:3000".to_string()), false) {
        GuardAction::ForwardWithOrigin { allow_origin } => assert_eq!(allow_origin, "http://localhost:3000"),
        _ => panic!("expected the request to pass with its origin"),
    }
}

#[test]
fn allowed_preflight_is_answered() {
    let r = registry();
    match guard_decision(&r, "/v1/instances/website/start", Some("https://mywebsite.com".to_string()), true) {
        GuardAction::Preflight { allow_origin } => assert_eq!(allow_origin, "https://mywebsite.com"),
        _ => panic!("expected a preflight answer"),
    }
    assert_eq!(PREFLIGHT_ALLOW_METHODS, "GET, POST, OPTIONS");
    assert_eq!(PREFLIGHT_ALLOW_HEADERS, "content-type");
}

#[test]
fn unknown_instance_and_other_paths_pass() {
    let r = registry();
    let evil = || Some("https://evil.example".to_string());
    assert!(matches!(guard_decision(&r, "/v1/instances/other/status", evil(), false), GuardAction::Forward));
    assert!(matches!(guard_decision(&r, "/metrics", evil(), false), GuardAction::Forward));
}

#[test]
fn api_errors_map_to_statuses() {
    let (status, message) = ApiError::NotFound("web".to_string()).status_and_message();
    assert_eq!((status, message.as_str()), (404, "instance 'web' not found"));
    let (status, message) = ApiError::Provider("cli failed".to_string()).status_and_message();
    assert_eq!((status, message.as_str()), (502, "cli failed"));
    let (status, message) = ApiError::Internal("boom".to_string()).status_and_message();
    assert_eq!((status, message.as_str()), (500, "boom"));
}

#[test]
fn registry_errors_become_api_errors() {
    let not_found = ApiError::from_registry_error(RegistryError::InstanceNotFound("web".to_string()));
    assert!(matches!(not_found, ApiError::NotFound(ref id) if id == "web"));
    let dup = ApiError::from_registry_error(RegistryError::DuplicateInstance("web".to_string()));
    assert!(matches!(dup, ApiError::Internal(ref m) if m == "instance 'web' is already registered"));
    let unknown = ApiError::from_registry_error(RegistryError::UnknownProviderType("x".to_string()));
    assert!(
        matches!(unknown, ApiError::Internal(ref m) if m == "no provider factory registered for type 'x'")
    );
    let provider = ApiError::from_provider_error(ProviderError::Message("down".to_string()));
    assert!(matches!(provider, ApiError::Provider(ref m) if m == "down"));
}

#[test]
fn lookup_of_unknown_instance_answers_not_found() {
    let r = registry();
    assert!(find_instance(&r, "website").is_ok());
    match find_instance(&r, "ghost") {
        Err(e) => assert_eq!(e.status_and_message(), (404, "instance 'ghost' not found".to_string())),
        Ok(_) => panic!("expected not found"),
    }
}

#[test]
fn replies_report_provider_state() {
    let ok = status_reply("website".to_string(), Ok(InstanceState::Stopped)).ok().expect("reply");
    assert_eq!((ok.id.as_str(), ok.state), ("website", InstanceState::Stopped));
    let started = start_reply("website".to_string(), Ok(())).ok().expect("reply");
    assert_eq!((started.id.as_str(), started.state), ("website", InstanceState::Starting));
    match status_reply("website".to_string(), Err(ProviderError::Message("cli".to_string()))) {
        Err(e) => assert_eq!(e.status_and_message(), (502, "cli".to_string())),
        Ok(_) => panic!("expected a provider error"),
    }
    assert!(matches!(
        start_reply("w".to_string(), Err(ProviderError::Message("no".to_string()))),
        Err(ApiError::Provider(ref m)) if m == "no"
    ));
}
