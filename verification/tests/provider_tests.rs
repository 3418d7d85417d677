use std::time::Duration;

use activator::exec::ProcessOutcome;
use activator::oci::default_cli_binary;
use activator::{
    CliRunner, ExecError, InstanceState, ManagedInstance, MockProvider, MockProviderFactory,
    OciConfig, OciInstanceData, OciInstanceResponse, OciProvider, OciProviderFactory,
    ProviderError, ProviderFactory,
};

fn oci_config(profile: Option<&str>) -> OciConfig {
    OciConfig {
        instance_id: "ocid1.instance.oc1.ap-mumbai-1.abc".to_string(),
        profile: profile.map(|p| p.to_string()),
        cli_binary: default_cli_binary(),
    }
}

fn state_of(s: &str) -> InstanceState {
    OciInstanceResponse { data: OciInstanceData { lifecycle_state: s.to_string() } }.to_instance_state()
}

#[test]
fn lifecycle_states_map_to_instance_states() {
    assert_eq!(state_of("RUNNING"), InstanceState::Running);
    assert_eq!(state_of("STOPPED"), InstanceState::Stopped);
    assert_eq!(state_of("STARTING"), InstanceState::Starting);
    assert_eq!(state_of("STOPPING"), InstanceState::Stopping);
    assert_eq!(state_of("TERMINATED"), InstanceState::Unknown);
    assert_eq!(state_of("running"), InstanceState::Unknown);
    assert_eq!(state_of(""), InstanceState::Unknown);
}

#[test]
fn oci_defaults_to_the_oci_cli() {
    assert_eq!(default_cli_binary(), "oci");
    let provider = OciProvider::new(oci_config(None));
    assert_eq!(provider.runner().binary(), "oci");
    assert_eq!(provider.runner().default_timeout(), Duration::from_secs(30));
    assert_eq!(provider.config().instance_id, "ocid1.instance.oc1.ap-mumbai-1.abc");
}

#[test]
fn oci_arguments_without_profile() {
    let provider = OciProvider::new(oci_config(None));
    assert_eq!(provider.base_args(), vec!["--instance-id", "ocid1.instance.oc1.ap-mumbai-1.abc"]);
    assert_eq!(
        provider.status_args(),
        vec!["compute", "instance", "get", "--instance-id", "ocid1.instance.oc1.ap-mumbai-1.abc"]
    );
}

#[test]
fn oci_arguments_with_profile() {
    let provider = OciProvider::new(oci_config(Some("DEFAULT")));
    assert_eq!(
        provider.base_args(),
        vec!["--instance-id", "ocid1.instance.oc1.ap-mumbai-1.abc", "--profile", "DEFAULT"]
    );
    assert_eq!(
        provider.start_args(),
        vec![
            "compute", "instance", "action", "--instance-id", "ocid1.instance.oc1.ap-mumbai-1.abc",
            "--profile", "DEFAULT", "--action", "START"
        ]
    );
    assert_eq!(
        provider.stop_args(),
        vec![
            "compute", "instance", "action", "--instance-id", "ocid1.instance.oc1.ap-mumbai-1.abc",
            "--profile", "DEFAULT", "--action", "STOP"
        ]
    );
    assert_eq!(provider.action_args("SOFTRESET")[8], "SOFTRESET");
}

#[test]
fn oci_factory_requires_a_config_path() {
    assert_eq!(OciProviderFactory.provider_type(), "oracle-oci");
    assert_eq!(
        OciProviderFactory::require_config_path(Some("cfg/web.yaml".to_string())).ok().as_deref(),
        Some("cfg/web.yaml")
    );
    match OciProviderFactory::require_config_path(None) {
        Err(e) => assert_eq!(e.message(), "oracle-oci provider requires provider_config"),
        Ok(_) => panic!("expected an error"),
    }
}

#[test]
fn mock_provider_reports_running() {
    assert_eq!(MockProviderFactory.provider_type(), "mock");
    let provider = MockProviderFactory.create(None).ok().expect("mock");
    assert_eq!(provider.status().ok(), Some(InstanceState::Running));
    assert_eq!(MockProvider::new().status().ok(), Some(InstanceState::Running));
}

#[test]
fn provider_error_message_is_its_text() {
    assert_eq!(ProviderError::Message("cli not found".to_string()).message(), "cli not found");
}

#[test]
fn runner_keeps_binary_and_timeout() {
    let runner = CliRunner::new("oci".to_string());
    assert_eq!(runner.binary(), "oci");
    assert_eq!(runner.default_timeout(), Duration::from_secs(30));
    let runner = runner.with_timeout(Duration::from_millis(1500));
    assert_eq!(runner.binary(), "oci");
    assert_eq!(runner.default_timeout(), Duration::from_millis(1500));
}

#[test]
fn successful_run_yields_its_output() {
    let runner = CliRunner::new("oci".to_string());
    let out = runner
        .finish(ProcessOutcome::Exited {
            success: true,
            code: Some(0),
            stdout: b"{\"data\":{}}".to_vec(),
            stderr: b"warning".to_vec(),
        })
        .expect("success");
    assert_eq!(out.stdout, "{\"data\":{}}");
    assert_eq!(out.stderr, "warning");
}

#[test]
fn invalid_utf8_output_is_decoded_lossily() {
    let runner = CliRunner::new("oci".to_string());
    let out = runner
        .finish(ProcessOutcome::Exited {
            success: true,
            code: Some(0),
            stdout: vec![b'o', b'k', 0xff],
            stderr: vec![],
        })
        .expect("success");
    assert_eq!(out.stdout, "ok\u{fffd}");
    assert_eq!(out.stderr, "");
}

#[test]
fn failed_run_reports_stderr_then_stdout() {
    let runner = CliRunner::new("oci".to_string());
    let with_stderr = runner.finish(ProcessOutcome::Exited {
        success: false,
        code: Some(2),
        stdout: b"out".to_vec(),
        stderr: b"bad profile".to_vec(),
    });
    assert!(matches!(
        with_stderr,
        Err(ExecError::NonZeroExit(ref b, 2, ref t)) if b == "oci" && t == "bad profile"
    ));
    let without_stderr = runner.finish(ProcessOutcome::Exited {
        success: false,
        code: None,
        stdout: b"only stdout".to_vec(),
        stderr: vec![],
    });
    assert!(matches!(
        without_stderr,
        Err(ExecError::NonZeroExit(ref b, -1, ref t)) if b == "oci" && t == "only stdout"
    ));
}

#[test]
fn timeouts_and_spawn_failures_name_the_command() {
    let runner = CliRunner::new("oci".to_string()).with_timeout(Duration::from_secs(5));
    assert!(matches!(
        runner.finish(ProcessOutcome::TimedOut),
        Err(ExecError::Timeout(ref b, d)) if b == "oci" && d == Duration::from_secs(5)
    ));
    let io = std::io::Error::new(std::io::ErrorKind::NotFound, "no such file");
    assert!(matches!(
        runner.finish(ProcessOutcome::SpawnFailed(io)),
        Err(ExecError::Spawn(ref b, ref e)) if b == "oci" && e.kind() == std::io::ErrorKind::NotFound
    ));
}

#[test]
fn json_results_name_the_command_on_failure() {
    let runner = CliRunner::new("oci".to_string());
    assert_eq!(runner.json_result(serde_json::from_str::<u32>("42")).ok(), Some(42));
    assert!(matches!(
        runner.json_result(serde_json::from_str::<u32>("not json")),
        Err(ExecError::JsonParse(ref b, _)) if b == "oci"
    ));
}

#[test]
fn managed_instance_tracks_its_state() {
    let mut instance = ManagedInstance::new("website".to_string(), "mock".to_string());
    assert_eq!(instance.state(), InstanceState::Stopped);
    instance.mark_starting();
    assert_eq!(instance.state(), InstanceState::Starting);
    instance.mark_running();
    assert_eq!(instance.state(), InstanceState::Running);
    instance.mark_stopping();
    assert_eq!(instance.state(), InstanceState::Stopping);
    instance.mark_stopped();
    assert_eq!(instance.state(), InstanceState::Stopped);
    assert_eq!((instance.id(), instance.provider()), ("website", "mock"));
}

#[test]
fn run_failures_read_as_messages() {
    let failed = ExecError::NonZeroExit("oci".to_string(), 2, "bad profile".to_string());
    assert_eq!(failed.message(), "process 'oci' exited with status 2: bad profile");
    let negative = ExecError::NonZeroExit("oci".to_string(), -1, "x".to_string());
    assert_eq!(negative.message(), "process 'oci' exited with status -1: x");
    let extreme = ExecError::NonZeroExit("oci".to_string(), i32::MIN, "".to_string());
    assert_eq!(extreme.message(), "process 'oci' exited with status -2147483648: ");
    let timeout = ExecError::Timeout("oci".to_string(), Duration::from_secs(30));
    assert_eq!(timeout.message(), "process 'oci' timed out after 30s");
    let io = std::io::Error::new(std::io::ErrorKind::NotFound, "no such file");
    assert_eq!(
        ExecError::Spawn("oci".to_string(), io).message(),
        "failed to spawn process 'oci': no such file"
    );
    let json = serde_json::from_str::<u32>("nope").unwrap_err();
    let text = json.to_string();
    assert_eq!(
        ExecError::JsonParse("oci".to_string(), json).message(),
        format!("failed to parse output of 'oci' as JSON: {text}")
    );
}

#[test]
fn oci_failures_read_as_provider_errors() {
    let failed = ExecError::NonZeroExit("oci".to_string(), 1, "denied".to_string());
    assert_eq!(
        OciProvider::run_failure(&failed).message(),
        "process 'oci' exited with status 1: denied"
    );
    let json = serde_json::from_str::<u32>("{").unwrap_err();
    let text = json.to_string();
    assert_eq!(
        OciProvider::parse_failure(&json).message(),
        format!("failed to parse oci output: {text}")
    );
    let io = std::io::Error::new(std::io::ErrorKind::NotFound, "gone");
    assert_eq!(OciConfig::read_failure("cfg/web.yaml", &io), "failed to read 'cfg/web.yaml': gone");
    let yaml = serde_norway::from_str::<u32>("[").unwrap_err();
    let text = yaml.to_string();
    assert_eq!(
        OciConfig::parse_failure("cfg/web.yaml", &yaml),
        format!("failed to parse 'cfg/web.yaml': {text}")
    );
}

fn response(s: &str) -> OciInstanceResponse {
    OciInstanceResponse { data: OciInstanceData { lifecycle_state: s.to_string() } }
}

#[test]
fn oci_replies_become_states_or_failures() {
    assert_eq!(OciProvider::action_state(Ok(response("STARTING"))).ok(), Some(InstanceState::Starting));
    let json = serde_json::from_str::<u32>("{").unwrap_err();
    let text = json.to_string();
    match OciProvider::action_state(Err(json)) {
        Err(e) => assert_eq!(e.message(), format!("failed to parse oci output: {text}")),
        Ok(_) => panic!("expected a parse failure"),
    }
    assert_eq!(OciProvider::status_state(Ok(response("STOPPED"))).ok(), Some(InstanceState::Stopped));
    match OciProvider::status_state(Err(ExecError::NonZeroExit("oci".to_string(), 3, "denied".to_string()))) {
        Err(e) => assert_eq!(e.message(), "process 'oci' exited with status 3: denied"),
        Ok(_) => panic!("expected a run failure"),
    }
}
