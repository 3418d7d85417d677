use vstd::prelude::*;

use crate::exec::{duration_from_secs, shows_exec_error, CliRunner, ExecError, DEFAULT_TIMEOUT_SECS};
use crate::outside::{io_error_text, json_error_text, yaml_error_text};
use crate::provider::{InstanceState, ProviderError};
use crate::registry::ProviderFactory;

verus! {

/// The per-instance configuration of the Oracle Cloud provider.
pub struct OciConfig {
    pub instance_id: String,
    pub profile: Option<String>,
    pub cli_binary: String,
}

impl OciConfig {
    /// The message of a failure to read the configuration file at `path`;
    /// the I/O error's own text is not stated.
    pub fn read_failure(path: &str, err: &std::io::Error) -> (r: String)
        ensures
            exists|t: Seq<char>| r@ == "failed to read '"@ + path@ + "': "@ + t,
    {
        let mut r = String::from_str("failed to read '");
        r.append(path);
        r.append("': ");
        let t = io_error_text(err);
        r.append(t.as_str());
        r
    }

    /// The message of a failure to parse the configuration file at `path`;
    /// the YAML error's own text is not stated.
    pub fn parse_failure(path: &str, err: &serde_norway::Error) -> (r: String)
        ensures
            exists|t: Seq<char>| r@ == "failed to parse '"@ + path@ + "': "@ + t,
    {
        let mut r = String::from_str("failed to parse '");
        r.append(path);
        r.append("': ");
        let t = yaml_error_text(err);
        r.append(t.as_str());
        r
    }
}

/// The OCI command-line tool used when the configuration names none.
pub fn default_cli_binary() -> (r: String)
    ensures
        r@ == "oci"@,
{
    String::from_str("oci")
}

/// The arguments that select the instance (and the CLI profile, if one is
/// configured).
pub open spec fn target_args(c: OciConfig) -> Seq<Seq<char>> {
    seq!["--instance-id"@, c.instance_id@] + match c.profile {
        Some(p) => seq!["--profile"@, p@],
        None => Seq::<Seq<char>>::empty(),
    }
}

/// The arguments of `oci compute instance action` for `action`.
pub open spec fn action_args(c: OciConfig, action: Seq<char>) -> Seq<Seq<char>> {
    seq!["compute"@, "instance"@, "action"@] + target_args(c) + seq!["--action"@, action]
}

/// The arguments of `oci compute instance get`.
pub open spec fn status_args(c: OciConfig) -> Seq<Seq<char>> {
    seq!["compute"@, "instance"@, "get"@] + target_args(c)
}

/// A list of arguments, taken as character sequences.
pub open spec fn args_view(args: Seq<&str>) -> Seq<Seq<char>> {
    args.map_values(|a: &str| a@)
}

/// Appends the arguments of `more` to `args`, in order.
fn append_args<'a>(args: &mut Vec<&'a str>, more: &Vec<&'a str>)
    ensures
        args_view(final(args)@) == args_view(old(args)@) + args_view(more@),
{
    let ghost start = args@;
    let mut i: usize = 0;
    while i < more.len()
        invariant
            i <= more@.len(),
            args_view(args@) == args_view(start) + args_view(more@).take(i as int),
        decreases more@.len() - i,
    {
        let ghost before = args@;
        args.push(more[i]);
        proof {
            assert(args_view(more@).take(i + 1) =~= args_view(more@).take(i as int).push(
                more@[i as int]@,
            ));
            assert(args_view(args@) =~= args_view(before).push(more@[i as int]@));
        }
        i = i + 1;
    }
    proof {
        assert(args_view(more@).take(more@.len() as int) =~= args_view(more@));
    }
}

/// Drives an Oracle Cloud instance through the `oci` command-line tool.
pub struct OciProvider {
    runner: CliRunner,
    config: OciConfig,
}

impl OciProvider {
    pub closed spec fn spec_config(&self) -> OciConfig {
        self.config
    }

    pub closed spec fn spec_runner(&self) -> CliRunner {
        self.runner
    }

    /// A provider for the instance that `config` describes, running its
    /// configured CLI with the default timeout.
    pub fn new(config: OciConfig) -> (r: Self)
        ensures
            r.spec_config() == config,
            r.spec_runner().spec_binary() == config.cli_binary@,
            r.spec_runner().spec_timeout() == duration_from_secs(DEFAULT_TIMEOUT_SECS),
    {
        let runner = CliRunner::new(config.cli_binary.clone());
        OciProvider { runner, config }
    }

    pub fn config(&self) -> (r: &OciConfig)
        ensures
            *r == self.spec_config(),
    {
        &self.config
    }

    pub fn runner(&self) -> (r: &CliRunner)
        ensures
            *r == self.spec_runner(),
    {
        &self.runner
    }

    /// `--instance-id <id>`, followed by `--profile <profile>` when a
    /// profile is configured.
    pub fn base_args(&self) -> (r: Vec<&str>)
        ensures
            args_view(r@) == target_args(self.spec_config()),
    {
        let mut args: Vec<&str> = Vec::new();
        args.push("--instance-id");
        args.push(self.config.instance_id.as_str());
        match &self.config.profile {
            Some(profile) => {
                args.push("--profile");
                args.push(profile.as_str());
            },
            None => {},
        }
        proof {
            assert(args_view(args@) =~= target_args(self.spec_config()));
        }
        args
    }

    /// The arguments that ask the CLI to apply `action` to the instance.
    pub fn action_args<'a>(&'a self, action: &'a str) -> (r: Vec<&'a str>)
        ensures
            args_view(r@) == action_args(self.spec_config(), action@),
    {
        let mut args: Vec<&str> = Vec::new();
        args.push("compute");
        args.push("instance");
        args.push("action");
        let base = self.base_args();
        append_args(&mut args, &base);
        let ghost before = args@;
        args.push("--action");
        args.push(action);
        proof {
            assert(args_view(args@) =~= args_view(before) + seq!["--action"@, action@]);
        }
        args
    }

    /// How a failed run of the CLI is reported: with the run error's text.
    pub fn run_failure(err: &ExecError) -> (r: ProviderError)
        ensures
            r matches ProviderError::Message(m) && shows_exec_error(*err, m@),
    {
        ProviderError::Message(err.message())
    }

    /// How output of the CLI that is not the expected JSON is reported; the
    /// JSON error's own text is not stated.
    pub fn parse_failure(err: &serde_json::Error) -> (r: ProviderError)
        ensures
            r matches ProviderError::Message(m) && exists|t: Seq<char>|
                m@ == "failed to parse oci output: "@ + t,
    {
        let mut m = String::from_str("failed to parse oci output: ");
        let t = json_error_text(err);
        m.append(t.as_str());
        ProviderError::Message(m)
    }

    /// The state that an action reports, from the parse of the CLI's output:
    /// output that is not the expected JSON is a provider failure.
    pub fn action_state(parsed: Result<OciInstanceResponse, serde_json::Error>) -> (r: Result<
        InstanceState,
        ProviderError,
    >)
        ensures
            match parsed {
                Ok(resp) => r == Ok::<_, ProviderError>(state_of_lifecycle(resp.data.lifecycle_state@)),
                Err(_) => r matches Err(ProviderError::Message(m)) && exists|t: Seq<char>|
                    m@ == "failed to parse oci output: "@ + t,
            },
    {
        match parsed {
            Ok(resp) => Ok(resp.to_instance_state()),
            Err(e) => Err(Self::parse_failure(&e)),
        }
    }

    /// The state that a status query reports, from the result of running the
    /// CLI and parsing its output as JSON: a failed run is a provider failure
    /// that shows the run error.
    pub fn status_state(reply: Result<OciInstanceResponse, ExecError>) -> (r: Result<
        InstanceState,
        ProviderError,
    >)
        ensures
            match reply {
                Ok(resp) => r == Ok::<_, ProviderError>(state_of_lifecycle(resp.data.lifecycle_state@)),
                Err(e) => r matches Err(ProviderError::Message(m)) && shows_exec_error(e, m@),
            },
    {
        match reply {
            Ok(resp) => Ok(resp.to_instance_state()),
            Err(e) => Err(Self::run_failure(&e)),
        }
    }

    /// The arguments that start the instance.
    pub fn start_args(&self) -> (r: Vec<&str>)
        ensures
            args_view(r@) == action_args(self.spec_config(), "START"@),
    {
        self.action_args("START")
    }

    /// The arguments that stop the instance.
    pub fn stop_args(&self) -> (r: Vec<&str>)
        ensures
            args_view(r@) == action_args(self.spec_config(), "STOP"@),
    {
        self.action_args("STOP")
    }

    /// The arguments that ask the CLI for the instance's state.
    pub fn status_args(&self) -> (r: Vec<&str>)
        ensures
            args_view(r@) == status_args(self.spec_config()),
    {
        let mut args: Vec<&str> = Vec::new();
        args.push("compute");
        args.push("instance");
        args.push("get");
        let base = self.base_args();
        append_args(&mut args, &base);
        args
    }
}

/// The part of `oci compute instance` output that the provider reads.
pub struct OciInstanceResponse {
    pub data: OciInstanceData,
}

pub struct OciInstanceData {
    pub lifecycle_state: String,
}

/// The instance state that an OCI lifecycle state stands for; states
/// other than the four below are unknown.
pub open spec fn state_of_lifecycle(s: Seq<char>) -> InstanceState {
    if s == "RUNNING"@ {
        InstanceState::Running
    } else if s == "STOPPED"@ {
        InstanceState::Stopped
    } else if s == "STARTING"@ {
        InstanceState::Starting
    } else if s == "STOPPING"@ {
        InstanceState::Stopping
    } else {
        InstanceState::Unknown
    }
}

impl OciInstanceResponse {
    pub fn to_instance_state(&self) -> (r: InstanceState)
        ensures
            r == state_of_lifecycle(self.data.lifecycle_state@),
    {
        let s = &self.data.lifecycle_state;
        if *s == String::from_str("RUNNING") {
            InstanceState::Running
        } else if *s == String::from_str("STOPPED") {
            InstanceState::Stopped
        } else if *s == String::from_str("STARTING") {
            InstanceState::Starting
        } else if *s == String::from_str("STOPPING") {
            InstanceState::Stopping
        } else {
            InstanceState::Unknown
        }
    }
}

/// Builds [`OciProvider`]s; serves the provider type `oracle-oci`.
pub struct OciProviderFactory;

impl ProviderFactory for OciProviderFactory {
    open spec fn spec_provider_type(&self) -> Seq<char> {
        "oracle-oci"@
    }

    fn provider_type(&self) -> (r: &'static str) {
        "oracle-oci"
    }
}

impl OciProviderFactory {
    /// The path of the provider configuration, which this provider cannot
    /// do without.
    pub fn require_config_path(config_path: Option<String>) -> (r: Result<String, ProviderError>)
        ensures
            match config_path {
                Some(p) => r matches Ok(q) && q == p,
                None => r matches Err(ProviderError::Message(m)) && m@
                    == "oracle-oci provider requires provider_config"@,
            },
    {
        match config_path {
            Some(p) => Ok(p),
            None => Err(
                ProviderError::Message(
                    String::from_str("oracle-oci provider requires provider_config"),
                ),
            ),
        }
    }
}

} // verus!
