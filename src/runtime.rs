//! The registry's record of one tenant runtime.
use crate::responses::ResponseTable;
use crate::storage::StorageSettings;
use vstd::prelude::*;

verus! {

/// Where a runtime stands in its life.
#[derive(Clone, Copy, Debug, PartialEq, Eq, Structural)]
pub enum RuntimeState {
    /// Constructed; its scripts are being loaded and it takes no events yet.
    Created,
    /// Its execution loop runs and takes events.
    Running,
    /// Shutting down: it takes no new events.
    Stopping,
}

/// What a runtime is created from.
pub struct RuntimeConfig {
    pub name: Option<String>,
    pub version: Option<String>,
    /// Per-tenant storage; `None` where the process-wide stores are used.
    pub settings: Option<StorageSettings>,
}

/// A tenant runtime as the registry knows it: identity, configuration,
/// lifecycle state and the responses it owes.
pub struct Runtime {
    pub id: u128,
    pub name: Option<String>,
    pub version: Option<String>,
    pub settings: Option<StorageSettings>,
    pub state: RuntimeState,
    pub responses: ResponseTable,
}

/// `rt` is the runtime that `config` makes under `id`, as just created.
pub open spec fn created_from(rt: Runtime, id: u128, config: RuntimeConfig) -> bool {
    &&& rt.id == id
    &&& rt.name == config.name
    &&& rt.version == config.version
    &&& rt.settings == config.settings
    &&& rt.state == RuntimeState::Created
    &&& rt.responses.wf()
    &&& rt.responses@ == Map::<u32, crate::responses::PendingResponse>::empty()
}

/// `b` is `a` with, at most, another table of responses.
pub open spec fn same_but_responses(a: Runtime, b: Runtime) -> bool {
    &&& a.id == b.id
    &&& a.name == b.name
    &&& a.version == b.version
    &&& a.settings == b.settings
    &&& a.state == b.state
}

impl Runtime {
    /// A runtime made from `config` under `id`, owing nothing.
    pub fn new(id: u128, config: RuntimeConfig) -> (r: Runtime)
        ensures
            created_from(r, id, config),
    {
        Runtime {
            id,
            name: config.name,
            version: config.version,
            settings: config.settings,
            state: RuntimeState::Created,
            responses: ResponseTable::new(),
        }
    }

    /// Whether the runtime's loop takes new events.
    pub fn accepts_events(&self) -> (r: bool)
        ensures
            r == (self.state == RuntimeState::Running),
    {
        self.state == RuntimeState::Running
    }
}

} // verus!
