use vstd::prelude::*;

use crate::provider::{InstanceState, ProviderError};
use crate::registry::ProviderFactory;

verus! {

/// A provider that drives no real infrastructure, for local testing: it
/// reports its instance as always running.
pub struct MockProvider;

impl MockProvider {
    pub fn new() -> (r: Self) {
        MockProvider
    }

    /// The state it reports: always running.
    pub fn status(&self) -> (r: Result<InstanceState, ProviderError>)
        ensures
            r matches Ok(s) && s == InstanceState::Running,
    {
        Ok(InstanceState::Running)
    }
}

/// Builds [`MockProvider`]s; serves the provider type `mock`.
pub struct MockProviderFactory;

impl ProviderFactory for MockProviderFactory {
    open spec fn spec_provider_type(&self) -> Seq<char> {
        "mock"@
    }

    fn provider_type(&self) -> (r: &'static str) {
        "mock"
    }
}

impl MockProviderFactory {
    /// A new mock provider; it needs no configuration.
    pub fn create(&self, _config_path: Option<String>) -> (r: Result<MockProvider, ProviderError>)
        ensures
            r is Ok,
    {
        Ok(MockProvider::new())
    }
}

} // verus!
