use vstd::prelude::*;

use crate::provider::InstanceState;

verus! {

/// A managed instance as the activator tracks it: its id, the provider
/// type that drives it, and its last known lifecycle state.
#[derive(Debug, Clone)]
pub struct ManagedInstance {
    id: String,
    provider: String,
    state: InstanceState,
}

/// [`ManagedInstance`] with its names taken as character sequences.
pub struct ManagedInstanceView {
    pub id: Seq<char>,
    pub provider: Seq<char>,
    pub state: InstanceState,
}

impl View for ManagedInstance {
    type V = ManagedInstanceView;

    closed spec fn view(&self) -> ManagedInstanceView {
        ManagedInstanceView { id: self.id@, provider: self.provider@, state: self.state }
    }
}

impl ManagedInstance {
    /// A new instance, taken to be stopped.
    pub fn new(id: String, provider: String) -> (r: Self)
        ensures
            r@ == (ManagedInstanceView { id: id@, provider: provider@, state: InstanceState::Stopped }),
    {
        ManagedInstance { id, provider, state: InstanceState::Stopped }
    }

    pub fn id(&self) -> (r: &str)
        ensures
            r@ == self@.id,
    {
        self.id.as_str()
    }

    pub fn provider(&self) -> (r: &str)
        ensures
            r@ == self@.provider,
    {
        self.provider.as_str()
    }

    pub fn state(&self) -> (r: InstanceState)
        ensures
            r == self@.state,
    {
        self.state
    }

    pub fn mark_starting(&mut self)
        ensures
            final(self)@ == (ManagedInstanceView { state: InstanceState::Starting, ..old(self)@ }),
    {
        self.state = InstanceState::Starting;
    }

    pub fn mark_running(&mut self)
        ensures
            final(self)@ == (ManagedInstanceView { state: InstanceState::Running, ..old(self)@ }),
    {
        self.state = InstanceState::Running;
    }

    pub fn mark_stopping(&mut self)
        ensures
            final(self)@ == (ManagedInstanceView { state: InstanceState::Stopping, ..old(self)@ }),
    {
        self.state = InstanceState::Stopping;
    }

    pub fn mark_stopped(&mut self)
        ensures
            final(self)@ == (ManagedInstanceView { state: InstanceState::Stopped, ..old(self)@ }),
    {
        self.state = InstanceState::Stopped;
    }
}

} // verus!
