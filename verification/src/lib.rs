//! Verified core of an on-demand instance activator: configuration
//! validation, the instance and provider-factory registries, the
//! origin guard of the public API, and the decisions of the cloud
//! provider integrations.

pub mod application;
pub mod bootstrap;
pub mod config;
pub mod domain;
pub mod exec;
pub mod http;
pub mod laws;
pub mod mock;
pub mod name_map;
pub mod oci;
pub mod outside;
pub mod provider;
pub mod registry;
pub mod text;

pub use provider::{InstanceState, ProviderError};
pub use registry::{
    InstanceRegistry, ProviderFactory, ProviderFactoryRegistry, RegisteredInstance, RegistryError,
};
pub use config::{Config, ConfigError, ConfigLoader, ConfigValidator, InstanceConfig, ProviderConfigRef, ServerConfig};
pub use domain::ManagedInstance;
pub use http::{ApiError, StatusResponse};
pub use exec::{CliRunner, ExecError, ExecOutput};
pub use mock::{MockProvider, MockProviderFactory};
pub use oci::{OciConfig, OciInstanceData, OciInstanceResponse, OciProvider, OciProviderFactory};
pub use bootstrap::{BootstrapError, Bootstrapper, BuiltinFactory};
pub use application::Application;
