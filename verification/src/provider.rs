use vstd::prelude::*;

verus! {

/// Lifecycle state of a managed virtual machine.
#[derive(Debug, Clone, Copy, PartialEq, Eq, Structural)]
pub enum InstanceState {
    Stopped,
    Starting,
    Running,
    Stopping,
    Unknown,
}

/// Failure reported by a provider integration.
#[derive(Debug)]
pub enum ProviderError {
    Message(String),
}

impl ProviderError {
    /// The text of the error, as it is shown to users.
    pub fn message(&self) -> (r: String)
        ensures
            self matches ProviderError::Message(m) && r@ == m@,
    {
        match self {
            ProviderError::Message(m) => m.clone(),
        }
    }
}

} // verus!
