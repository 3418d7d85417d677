use vstd::prelude::*;

use crate::bootstrap::{join_path, Bootstrapper};
use crate::outside::{io_error_text, yaml_error_text};
use crate::text::surround;

verus! {

/// The whole configuration of the activator (`config.yaml`).
pub struct Config {
    pub server: ServerConfig,
    pub instances: Vec<InstanceConfig>,
}

/// Where the HTTP API listens.
pub struct ServerConfig {
    pub host: String,
    pub port: u16,
}

/// One managed instance.
pub struct InstanceConfig {
    pub id: String,
    pub provider: String,
    pub allowed_origins: Vec<String>,
    pub provider_config: Option<ProviderConfigRef>,
}

/// Where the provider-specific configuration of an instance lives.
pub enum ProviderConfigRef {
    File { path: String },
}

/// Failures of loading the configuration.
#[derive(Debug)]
pub enum ConfigError {
    Io(std::io::Error),
    Parse(serde_norway::Error),
    Validation(String),
}

impl ConfigError {
    /// The text of the error, as it is shown to users. The texts that the
    /// I/O and YAML errors give of themselves come from their own `Display`
    /// and are not stated.
    pub fn message(&self) -> (r: String)
        ensures
            match self {
                ConfigError::Io(_) => exists|t: Seq<char>|
                    r@ == "failed to read configuration file: "@ + t,
                ConfigError::Parse(_) => exists|t: Seq<char>|
                    r@ == "failed to parse configuration file: "@ + t,
                ConfigError::Validation(m) => r@ == m@,
            },
    {
        match self {
            ConfigError::Io(e) => {
                let t = io_error_text(e);
                let mut r = String::from_str("failed to read configuration file: ");
                r.append(t.as_str());
                r
            },
            ConfigError::Parse(e) => {
                let t = yaml_error_text(e);
                let mut r = String::from_str("failed to parse configuration file: ");
                r.append(t.as_str());
                r
            },
            ConfigError::Validation(m) => m.clone(),
        }
    }
}

/// The ids of the configured instances, in order.
pub open spec fn instance_ids(instances: Seq<InstanceConfig>) -> Seq<Seq<char>> {
    instances.map_values(|c: InstanceConfig| c.id@)
}

/// `ids[j]` already occurs before position `j`.
pub open spec fn repeats_earlier(ids: Seq<Seq<char>>, j: int) -> bool {
    0 <= j < ids.len() && ids.take(j).contains(ids[j])
}

/// `j` is the first position whose id already occurred before it.
pub open spec fn is_first_repeat(ids: Seq<Seq<char>>, j: int) -> bool {
    repeats_earlier(ids, j) && forall|k: int| 0 <= k < j ==> !repeats_earlier(ids, k)
}

/// What the check of the instance list answers, whatever the server
/// settings: `Ok` for a non-empty list of distinct ids, else the message of
/// the first rule broken.
pub open spec fn instances_outcome(ids: Seq<Seq<char>>) -> Result<(), Seq<char>> {
    if ids.len() == 0 {
        Err("at least one instance must be configured"@)
    } else if exists|j: int| repeats_earlier(ids, j) {
        let j = choose|j: int| is_first_repeat(ids, j);
        Err("duplicate instance id '"@ + ids[j] + "'"@)
    } else {
        Ok(())
    }
}

/// What validation answers for a configuration: `Ok`, or the message of the
/// first rule that it breaks; the server port is checked first.
pub open spec fn validation_outcome(server_port: u16, ids: Seq<Seq<char>>) -> Result<(), Seq<char>> {
    if server_port == 0 {
        Err("server.port must be greater than 0"@)
    } else {
        instances_outcome(ids)
    }
}

/// A validation result, with its message taken as characters.
pub open spec fn validation_result_view(r: Result<(), ConfigError>) -> Option<Result<(), Seq<char>>> {
    match r {
        Ok(()) => Some(Ok(())),
        Err(ConfigError::Validation(m)) => Some(Err(m@)),
        Err(_) => None,
    }
}

proof fn lemma_first_repeat_unique(ids: Seq<Seq<char>>, j: int)
    requires
        is_first_repeat(ids, j),
    ensures
        (choose|k: int| is_first_repeat(ids, k)) == j,
{
    let k = choose|k: int| is_first_repeat(ids, k);
    assert(is_first_repeat(ids, k));
    if k < j {
        assert(!repeats_earlier(ids, k));
    } else if j < k {
        assert(!repeats_earlier(ids, j));
    }
}

/// Checks a parsed configuration before it is used.
pub struct ConfigValidator;

impl ConfigValidator {
    /// Accepts a configuration whose port is not 0, that configures at least
    /// one instance, and whose instance ids are pairwise distinct; otherwise
    /// reports the first rule broken, in that order.
    pub fn validate(config: &Config) -> (r: Result<(), ConfigError>)
        ensures
            validation_result_view(r) == Some(
                validation_outcome(config.server.port, instance_ids(config.instances@)),
            ),
    {
        Self::validate_server(config)?;
        Self::validate_instances(config)?;
        Ok(())
    }

    fn validate_server(config: &Config) -> (r: Result<(), ConfigError>)
        ensures
            config.server.port == 0 ==> validation_result_view(r) == Some(
                validation_outcome(config.server.port, instance_ids(config.instances@)),
            ),
            config.server.port != 0 ==> r is Ok,
    {
        if config.server.port == 0 {
            return Err(ConfigError::Validation(String::from_str("server.port must be greater than 0")));
        }
        Ok(())
    }

    fn validate_instances(config: &Config) -> (r: Result<(), ConfigError>)
        ensures
            validation_result_view(r) == Some(instances_outcome(instance_ids(config.instances@))),
    {
        let ghost ids = instance_ids(config.instances@);
        if config.instances.len() == 0 {
            return Err(
                ConfigError::Validation(String::from_str("at least one instance must be configured")),
            );
        }
        let n: usize = config.instances.len();
        let mut j: usize = 0;
        while j < n
            invariant
                n == config.instances@.len(),
                ids == instance_ids(config.instances@),
                j <= n,
                forall|k: int| 0 <= k < j ==> !repeats_earlier(ids, k),
            decreases n - j,
        {
            let mut i: usize = 0;
            while i < j
                invariant
                    n == config.instances@.len(),
                    ids == instance_ids(config.instances@),
                        i <= j < n,
                    forall|k: int| 0 <= k < j ==> !repeats_earlier(ids, k),
                    forall|k: int| 0 <= k < i ==> ids[k] != ids[j as int],
                decreases j - i,
            {
                proof {
                    assert(ids[i as int] == config.instances@[i as int].id@);
                    assert(ids[j as int] == config.instances@[j as int].id@);
                }
                if config.instances[i].id == config.instances[j].id {
                    proof {
                        assert(ids.take(j as int)[i as int] == ids[j as int]);
                        assert(is_first_repeat(ids, j as int));
                        lemma_first_repeat_unique(ids, j as int);
                        assert(repeats_earlier(ids, j as int));
                        assert(instances_outcome(ids) == Err::<(), Seq<char>>(
                            "duplicate instance id '"@ + ids[j as int] + "'"@));
                    }
                    return Err(
                        ConfigError::Validation(
                            surround("duplicate instance id '", config.instances[j].id.as_str(), "'"),
                        ),
                    );
                }
                i = i + 1;
            }
            proof {
                if ids.take(j as int).contains(ids[j as int]) {
                    let k = choose|k: int| 0 <= k < j && ids.take(j as int)[k] == ids[j as int];
                    assert(ids[k] == ids[j as int]);
                }
            }
            j = j + 1;
        }
        Ok(())
    }
}

/// Loads the configuration from its directory. Reading the file is left to
/// the caller; this decides where it lives and what becomes of its contents.
pub struct ConfigLoader;

impl ConfigLoader {
    /// The configuration file inside the configuration directory.
    pub fn config_path(config_dir: &str) -> (r: String)
        ensures
            r@ == join_path(config_dir@, "config.yaml"@),
    {
        Bootstrapper::join_config_path(config_dir, "config.yaml")
    }

    /// The loaded configuration, from the result of parsing the file: a
    /// parse failure is reported as such, and a parsed configuration must
    /// pass validation.
    pub fn finish(parsed: Result<Config, serde_norway::Error>) -> (r: Result<Config, ConfigError>)
        ensures
            match parsed {
                Err(e) => r matches Err(ConfigError::Parse(e2)) && e2 == e,
                Ok(c) => match validation_outcome(c.server.port, instance_ids(c.instances@)) {
                    Ok(()) => r matches Ok(c2) && c2 == c,
                    Err(m) => r matches Err(ConfigError::Validation(m2)) && m2@ == m,
                },
            },
    {
        match parsed {
            Err(e) => Err(ConfigError::Parse(e)),
            Ok(config) => {
                ConfigValidator::validate(&config)?;
                Ok(config)
            },
        }
    }
}

} // verus!
