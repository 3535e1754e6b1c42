//! The runtime registry: the one place where runtimes are created, addressed
//! by id, hostname or service name, and removed.
use crate::ids::{StreamIdCounter, fresh_runtime_id, get_next_stream_id, parse_runtime_id, parsed_uuid, successor};
use crate::names::{NameIndex, without_id};
use crate::responses::{EventKind, PendingResponse, ids_unique, pending_map};
use crate::runtime::{Runtime, RuntimeConfig, RuntimeState, created_from, same_but_responses};
use std::collections::HashMap;
use vstd::prelude::*;

verus! {

broadcast use vstd::std_specs::hash::group_hash_axioms;

/// Why a registry operation was refused.
#[derive(Clone, Copy, Debug, PartialEq, Eq, Structural)]
pub enum RuntimeManagerError {
    /// No runtime is registered under this id.
    UnknownRuntime(u128),
    /// A runtime is already registered under this id.
    DuplicateId(u128),
}

/// Why an event that a runtime would take could not be handed to it.
#[derive(Clone, Copy, Debug, PartialEq, Eq, Structural)]
pub enum DispatchError {
    /// The runtime still owes a response under the id just drawn.
    IdInUse(u32),
}

/// Why a response could not be matched with the request it answers.
#[derive(Clone, Copy, Debug, PartialEq, Eq, Structural)]
pub enum CorrelationFailure {
    /// The answering runtime is not registered.
    UnknownRuntime(u128),
    /// Nothing is owed under this id: it was never asked for, or it was
    /// already answered or given up.
    NoReceiver(u32),
    /// What is owed under this id is a response of another kind.
    WrongKind(u32),
}

/// Why runtime information could not be read.
#[derive(Clone, Copy, Debug, PartialEq, Eq, Structural)]
pub enum InfoError {
    /// The text is not a runtime id.
    InvalidId,
    /// No runtime is registered under the id.
    NotFound(u128),
}

/// Name and version of a runtime.
pub struct RuntimeInfo {
    pub name: Option<String>,
    pub version: Option<String>,
}

/// Each runtime is stored under its own id with a well-formed table, and
/// every hostname and service name resolves to a registered runtime.
pub open spec fn registry_consistent(
    runtimes: Map<u128, Runtime>,
    hostnames: Map<Seq<char>, u128>,
    servicenames: Map<Seq<char>, u128>,
) -> bool {
    &&& forall|id: u128| #[trigger]
        runtimes.contains_key(id) ==> runtimes[id].id == id && runtimes[id].responses.wf()
    &&& forall|h: Seq<char>| #[trigger]
        hostnames.contains_key(h) ==> runtimes.contains_key(hostnames[h])
    &&& forall|s: Seq<char>| #[trigger]
        servicenames.contains_key(s) ==> runtimes.contains_key(servicenames[s])
}

/// The runtime `id` is registered and its loop takes events.
pub open spec fn accepting(runtimes: Map<u128, Runtime>, id: u128) -> bool {
    runtimes.contains_key(id) && runtimes[id].state == RuntimeState::Running
}

/// `after` is `before` where runtime `at` has only changed its table of
/// responses, to `table`.
pub open spec fn table_replaced(
    before: Map<u128, Runtime>,
    after: Map<u128, Runtime>,
    at: u128,
    table: Map<u32, PendingResponse>,
) -> bool {
    &&& before.contains_key(at)
    &&& after.contains_key(at)
    &&& after.remove(at) == before.remove(at)
    &&& same_but_responses(before[at], after[at])
    &&& after[at].responses.wf()
    &&& after[at].responses@ == table
}

/// `after` is `before` where runtime `at` has only changed state, to `state`.
pub open spec fn state_replaced(
    before: Map<u128, Runtime>,
    after: Map<u128, Runtime>,
    at: u128,
    state: RuntimeState,
) -> bool {
    &&& before.contains_key(at)
    &&& after.contains_key(at)
    &&& after.remove(at) == before.remove(at)
    &&& after[at].id == before[at].id
    &&& after[at].name == before[at].name
    &&& after[at].version == before[at].version
    &&& after[at].settings == before[at].settings
    &&& after[at].state == state
    &&& after[at].responses == before[at].responses
}

/// The registry of runtimes and of the names that address them.
pub struct StandardRuntimeManager {
    runtimes: HashMap<u128, Runtime>,
    hostnames: NameIndex,
    servicenames: NameIndex,
}

impl StandardRuntimeManager {
    /// The registered runtimes, by id.
    pub closed spec fn runtimes(&self) -> Map<u128, Runtime> {
        self.runtimes@
    }

    /// The hostnames and the ids they are bound to.
    pub closed spec fn hostnames(&self) -> Map<Seq<char>, u128> {
        self.hostnames@
    }

    /// The service names and the ids they are bound to.
    pub closed spec fn servicenames(&self) -> Map<Seq<char>, u128> {
        self.servicenames@
    }

    /// The indexes hold no name twice.
    pub closed spec fn indexes_wf(&self) -> bool {
        self.hostnames.wf() && self.servicenames.wf()
    }

    /// The registry is well formed.
    pub open spec fn wf(&self) -> bool {
        &&& self.indexes_wf()
        &&& registry_consistent(self.runtimes(), self.hostnames(), self.servicenames())
    }

    /// An empty registry.
    pub fn new() -> (r: Self)
        ensures
            r.wf(),
            r.runtimes() == Map::<u128, Runtime>::empty(),
            r.hostnames() == Map::<Seq<char>, u128>::empty(),
            r.servicenames() == Map::<Seq<char>, u128>::empty(),
    {
        StandardRuntimeManager {
            runtimes: HashMap::new(),
            hostnames: NameIndex::new(),
            servicenames: NameIndex::new(),
        }
    }

    /// Registers a runtime made from `config` under the id `id`.
    pub fn new_runtime_with_id(&mut self, id: u128, config: RuntimeConfig) -> (r: Result<
        u128,
        RuntimeManagerError,
    >)
        requires
            old(self).wf(),
        ensures
            final(self).wf(),
            final(self).hostnames() == old(self).hostnames(),
            final(self).servicenames() == old(self).servicenames(),
            old(self).runtimes().contains_key(id) ==> r == Err::<u128, RuntimeManagerError>(
                RuntimeManagerError::DuplicateId(id),
            ) && final(self).runtimes() == old(self).runtimes(),
            !old(self).runtimes().contains_key(id) ==> r == Ok::<u128, RuntimeManagerError>(id)
                && final(self).runtimes() == old(self).runtimes().insert(
                id,
                final(self).runtimes()[id],
            ) && created_from(final(self).runtimes()[id], id, config),
    {
        if self.runtimes.contains_key(&id) {
            return Err(RuntimeManagerError::DuplicateId(id));
        }
        let rt = Runtime::new(id, config);
        self.runtimes.insert(id, rt);
        Ok(id)
    }

    /// Registers a runtime made from `config` under a freshly drawn id.
    ///
    /// Should the drawn id be taken already, nothing is registered.
    pub fn new_runtime(&mut self, config: RuntimeConfig) -> (r: Result<u128, RuntimeManagerError>)
        requires
            old(self).wf(),
        ensures
            final(self).wf(),
            final(self).hostnames() == old(self).hostnames(),
            final(self).servicenames() == old(self).servicenames(),
            match r {
                Ok(id) => {
                    &&& !old(self).runtimes().contains_key(id)
                    &&& final(self).runtimes() == old(self).runtimes().insert(
                        id,
                        final(self).runtimes()[id],
                    )
                    &&& created_from(final(self).runtimes()[id], id, config)
                },
                Err(e) => {
                    &&& e matches RuntimeManagerError::DuplicateId(id)
                    &&& old(self).runtimes().contains_key(id)
                    &&& final(self).runtimes() == old(self).runtimes()
                },
            },
    {
        let id = fresh_runtime_id();
        self.new_runtime_with_id(id, config)
    }

    /// Removes runtime `id`, and every hostname and service name bound to it.
    /// Returns the responses it still owed, each once, for their waiters to
    /// be told that no answer will come.
    pub fn remove_runtime(&mut self, id: u128) -> (r: Result<
        Vec<PendingResponse>,
        RuntimeManagerError,
    >)
        requires
            old(self).wf(),
        ensures
            final(self).wf(),
            !old(self).runtimes().contains_key(id) ==> r == Err::<
                Vec<PendingResponse>,
                RuntimeManagerError,
            >(RuntimeManagerError::UnknownRuntime(id)) && final(self).runtimes() == old(
                self,
            ).runtimes() && final(self).hostnames() == old(self).hostnames()
                && final(self).servicenames() == old(self).servicenames(),
            old(self).runtimes().contains_key(id) ==> (r matches Ok(v) && ids_unique(v@)
                && pending_map(v@) == old(self).runtimes()[id].responses@)
                && final(self).runtimes() == old(self).runtimes().remove(id)
                && final(self).hostnames() == without_id(old(self).hostnames(), id)
                && final(self).servicenames() == without_id(old(self).servicenames(), id),
    {
        match self.runtimes.remove(&id) {
            None => Err(RuntimeManagerError::UnknownRuntime(id)),
            Some(rt) => {
                let mut rt = rt;
                self.hostnames.unbind_id(id);
                self.servicenames.unbind_id(id);
                let owed = rt.responses.drain();
                Ok(owed)
            },
        }
    }

    /// Binds service name `servicename` to runtime `uuid`; a later bind of
    /// the same name replaces this one.
    pub fn bind_servicename_to(&mut self, uuid: u128, servicename: &str) -> (r: Result<
        (),
        RuntimeManagerError,
    >)
        requires
            old(self).wf(),
        ensures
            final(self).wf(),
            final(self).runtimes() == old(self).runtimes(),
            final(self).hostnames() == old(self).hostnames(),
            !old(self).runtimes().contains_key(uuid) ==> r == Err::<(), RuntimeManagerError>(
                RuntimeManagerError::UnknownRuntime(uuid),
            ) && final(self).servicenames() == old(self).servicenames(),
            old(self).runtimes().contains_key(uuid) ==> r == Ok::<(), RuntimeManagerError>(())
                && final(self).servicenames() == old(self).servicenames().insert(
                servicename@,
                uuid,
            ),
    {
        if !self.runtimes.contains_key(&uuid) {
            return Err(RuntimeManagerError::UnknownRuntime(uuid));
        }
        self.servicenames.bind(servicename, uuid);
        Ok(())
    }

    /// Binds hostname `hostname` to runtime `uuid`; a later bind of the same
    /// name replaces this one.
    pub fn bind_hostname_to(&mut self, uuid: u128, hostname: &str) -> (r: Result<
        (),
        RuntimeManagerError,
    >)
        requires
            old(self).wf(),
        ensures
            final(self).wf(),
            final(self).runtimes() == old(self).runtimes(),
            final(self).servicenames() == old(self).servicenames(),
            !old(self).runtimes().contains_key(uuid) ==> r == Err::<(), RuntimeManagerError>(
                RuntimeManagerError::UnknownRuntime(uuid),
            ) && final(self).hostnames() == old(self).hostnames(),
            old(self).runtimes().contains_key(uuid) ==> r == Ok::<(), RuntimeManagerError>(())
                && final(self).hostnames() == old(self).hostnames().insert(hostname@, uuid),
    {
        if !self.runtimes.contains_key(&uuid) {
            return Err(RuntimeManagerError::UnknownRuntime(uuid));
        }
        self.hostnames.bind(hostname, uuid);
        Ok(())
    }

    /// The runtime registered under `uuid`.
    pub fn get_by_uuid(&self, uuid: u128) -> (r: Option<&Runtime>)
        requires
            self.wf(),
        ensures
            match r {
                Some(rt) => self.runtimes().contains_key(uuid) && *rt == self.runtimes()[uuid],
                None => !self.runtimes().contains_key(uuid),
            },
    {
        self.runtimes.get(&uuid)
    }

    /// The runtime that `hostname` is bound to.
    pub fn get_by_hostname(&self, hostname: &str) -> (r: Option<&Runtime>)
        requires
            self.wf(),
        ensures
            match r {
                Some(rt) => self.hostnames().contains_key(hostname@) && *rt
                    == self.runtimes()[self.hostnames()[hostname@]],
                None => !self.hostnames().contains_key(hostname@),
            },
    {
        match self.hostnames.get(hostname) {
            Some(id) => self.runtimes.get(&id),
            None => None,
        }
    }

    /// The runtime that `servicename` is bound to.
    pub fn get_by_servicename(&self, servicename: &str) -> (r: Option<&Runtime>)
        requires
            self.wf(),
        ensures
            match r {
                Some(rt) => self.servicenames().contains_key(servicename@) && *rt
                    == self.runtimes()[self.servicenames()[servicename@]],
                None => !self.servicenames().contains_key(servicename@),
            },
    {
        match self.servicenames.get(servicename) {
            Some(id) => self.runtimes.get(&id),
            None => None,
        }
    }

    /// The id of the runtime that `servicename` is bound to.
    pub fn uuid_by_servicename(&self, servicename: &str) -> (r: Option<u128>)
        requires
            self.wf(),
        ensures
            r == (if self.servicenames().contains_key(servicename@) {
                Some(self.servicenames()[servicename@])
            } else {
                None::<u128>
            }),
    {
        self.servicenames.get(servicename)
    }

    fn set_state(&mut self, id: u128, state: RuntimeState) -> (r: Result<(), RuntimeManagerError>)
        requires
            old(self).wf(),
        ensures
            final(self).wf(),
            final(self).hostnames() == old(self).hostnames(),
            final(self).servicenames() == old(self).servicenames(),
            !old(self).runtimes().contains_key(id) ==> r == Err::<(), RuntimeManagerError>(
                RuntimeManagerError::UnknownRuntime(id),
            ) && final(self).runtimes() == old(self).runtimes(),
            old(self).runtimes().contains_key(id) ==> r == Ok::<(), RuntimeManagerError>(())
                && state_replaced(old(self).runtimes(), final(self).runtimes(), id, state),
    {
        match self.runtimes.remove(&id) {
            None => Err(RuntimeManagerError::UnknownRuntime(id)),
            Some(rt) => {
                let mut rt = rt;
                rt.state = state;
                self.runtimes.insert(id, rt);
                assert(self.runtimes@.remove(id) =~= old(self).runtimes@.remove(id));
                Ok(())
            },
        }
    }

    /// Records that the execution loop of runtime `id` has started: from now
    /// on it takes events.
    pub fn mark_running(&mut self, id: u128) -> (r: Result<(), RuntimeManagerError>)
        requires
            old(self).wf(),
        ensures
            final(self).wf(),
            final(self).hostnames() == old(self).hostnames(),
            final(self).servicenames() == old(self).servicenames(),
            !old(self).runtimes().contains_key(id) ==> r == Err::<(), RuntimeManagerError>(
                RuntimeManagerError::UnknownRuntime(id),
            ) && final(self).runtimes() == old(self).runtimes(),
            old(self).runtimes().contains_key(id) ==> r == Ok::<(), RuntimeManagerError>(())
                && state_replaced(
                old(self).runtimes(),
                final(self).runtimes(),
                id,
                RuntimeState::Running,
            ),
    {
        self.set_state(id, RuntimeState::Running)
    }

    /// Records that runtime `id` is shutting down: it takes no new events,
    /// and still owes what it owed.
    pub fn mark_stopping(&mut self, id: u128) -> (r: Result<(), RuntimeManagerError>)
        requires
            old(self).wf(),
        ensures
            final(self).wf(),
            final(self).hostnames() == old(self).hostnames(),
            final(self).servicenames() == old(self).servicenames(),
            !old(self).runtimes().contains_key(id) ==> r == Err::<(), RuntimeManagerError>(
                RuntimeManagerError::UnknownRuntime(id),
            ) && final(self).runtimes() == old(self).runtimes(),
            old(self).runtimes().contains_key(id) ==> r == Ok::<(), RuntimeManagerError>(())
                && state_replaced(
                old(self).runtimes(),
                final(self).runtimes(),
                id,
                RuntimeState::Stopping,
            ),
    {
        self.set_state(id, RuntimeState::Stopping)
    }

    /// Hands an event of kind `kind` to runtime `target` under a fresh
    /// correlation id, and records the response it then owes to `caller`
    /// until `deadline`.
    ///
    /// `None` when the runtime is not registered or its loop takes no events;
    /// then no id is drawn. An error when the id drawn is still owed by the
    /// runtime, which only a counter that wrapped around can bring about.
    pub fn dispatch(
        &mut self,
        ids: &mut StreamIdCounter,
        target: u128,
        kind: EventKind,
        caller: Option<u128>,
        deadline: u64,
    ) -> (r: Option<Result<u32, DispatchError>>)
        requires
            old(self).wf(),
        ensures
            final(self).wf(),
            final(self).hostnames() == old(self).hostnames(),
            final(self).servicenames() == old(self).servicenames(),
            !accepting(old(self).runtimes(), target) ==> r is None && final(self).runtimes() == old(
                self,
            ).runtimes() && *final(ids) == *old(ids),
            accepting(old(self).runtimes(), target) ==> final(ids).next == successor(
                old(ids).next,
            ),
            accepting(old(self).runtimes(), target) && old(self).runtimes()[target].responses@.contains_key(
                old(ids).next,
            ) ==> r == Some(Err::<u32, DispatchError>(DispatchError::IdInUse(old(ids).next)))
                && final(self).runtimes() == old(self).runtimes(),
            accepting(old(self).runtimes(), target) && !old(self).runtimes()[target].responses@.contains_key(
                old(ids).next,
            ) ==> r == Some(Ok::<u32, DispatchError>(old(ids).next)) && table_replaced(
                old(self).runtimes(),
                final(self).runtimes(),
                target,
                old(self).runtimes()[target].responses@.insert(
                    old(ids).next,
                    PendingResponse { id: old(ids).next, kind, caller, deadline },
                ),
            ),
    {
        let accepts = match self.runtimes.get(&target) {
            Some(rt) => rt.accepts_events(),
            None => false,
        };
        if !accepts {
            return None;
        }
        let id = get_next_stream_id(ids);
        let rt = self.runtimes.remove(&target);
        match rt {
            None => None,
            Some(rt) => {
                let mut rt = rt;
                if rt.responses.get(id).is_some() {
                    self.runtimes.insert(target, rt);
                    assert(self.runtimes@ =~= old(self).runtimes@);
                    return Some(Err(DispatchError::IdInUse(id)));
                }
                rt.responses.insert(PendingResponse { id, kind, caller, deadline });
                self.runtimes.insert(target, rt);
                assert(self.runtimes@.remove(target) =~= old(self).runtimes@.remove(target));
                Some(Ok(id))
            },
        }
    }

    /// What runtime `at` owes under correlation id `id`, if anything.
    pub fn pending(&self, at: u128, id: u32) -> (r: Option<PendingResponse>)
        requires
            self.wf(),
        ensures
            r == (if self.runtimes().contains_key(at) && self.runtimes()[at].responses@.contains_key(
                id,
            ) {
                Some(self.runtimes()[at].responses@[id])
            } else {
                None::<PendingResponse>
            }),
    {
        match self.runtimes.get(&at) {
            Some(rt) => rt.responses.get(id),
            None => None,
        }
    }

    /// Settles what runtime `at` owes under `id`, a response of kind `kind`:
    /// the entry leaves the table and is returned, so the response reaches
    /// its waiter once. Nothing changes when the entry is missing or of
    /// another kind.
    pub fn take_response(&mut self, at: u128, id: u32, kind: EventKind) -> (r: Result<
        PendingResponse,
        CorrelationFailure,
    >)
        requires
            old(self).wf(),
        ensures
            final(self).wf(),
            final(self).hostnames() == old(self).hostnames(),
            final(self).servicenames() == old(self).servicenames(),
            r == settle_outcome(old(self).runtimes(), at, id, kind),
            r is Err ==> final(self).runtimes() == old(self).runtimes(),
            r is Ok ==> table_replaced(
                old(self).runtimes(),
                final(self).runtimes(),
                at,
                old(self).runtimes()[at].responses@.remove(id),
            ),
    {
        let rt = self.runtimes.remove(&at);
        match rt {
            None => {
                assert(self.runtimes@ =~= old(self).runtimes@);
                Err(CorrelationFailure::UnknownRuntime(at))
            },
            Some(rt) => {
                let mut rt = rt;
                match rt.responses.get(id) {
                    None => {
                        self.runtimes.insert(at, rt);
                        assert(self.runtimes@ =~= old(self).runtimes@);
                        Err(CorrelationFailure::NoReceiver(id))
                    },
                    Some(entry) => {
                        if entry.kind != kind {
                            self.runtimes.insert(at, rt);
                            assert(self.runtimes@ =~= old(self).runtimes@);
                            return Err(CorrelationFailure::WrongKind(id));
                        }
                        let _ = rt.responses.take(id);
                        self.runtimes.insert(at, rt);
                        assert(self.runtimes@.remove(at) =~= old(self).runtimes@.remove(at));
                        Ok(entry)
                    },
                }
            },
        }
    }

    /// Name and version of the runtime whose id is written in `uuid_text`.
    pub fn read_runtime_info(&self, uuid_text: &str) -> (r: Result<RuntimeInfo, InfoError>)
        requires
            self.wf(),
        ensures
            match parsed_uuid(uuid_text@) {
                None => r == Err::<RuntimeInfo, InfoError>(InfoError::InvalidId),
                Some(id) => if self.runtimes().contains_key(id) {
                    r matches Ok(info) && info.name == self.runtimes()[id].name && info.version
                        == self.runtimes()[id].version
                } else {
                    r == Err::<RuntimeInfo, InfoError>(InfoError::NotFound(id))
                },
            },
    {
        let id = match parse_runtime_id(uuid_text) {
            Some(id) => id,
            None => return Err(InfoError::InvalidId),
        };
        match self.runtimes.get(&id) {
            Some(rt) => Ok(
                RuntimeInfo { name: clone_text(&rt.name), version: clone_text(&rt.version) },
            ),
            None => Err(InfoError::NotFound(id)),
        }
    }
}

/// What settling `id` at runtime `at` with a response of kind `kind` yields.
pub open spec fn settle_outcome(
    runtimes: Map<u128, Runtime>,
    at: u128,
    id: u32,
    kind: EventKind,
) -> Result<PendingResponse, CorrelationFailure> {
    if !runtimes.contains_key(at) {
        Err(CorrelationFailure::UnknownRuntime(at))
    } else if !runtimes[at].responses@.contains_key(id) {
        Err(CorrelationFailure::NoReceiver(id))
    } else if runtimes[at].responses@[id].kind != kind {
        Err(CorrelationFailure::WrongKind(id))
    } else {
        Ok(runtimes[at].responses@[id])
    }
}

fn clone_text(o: &Option<String>) -> (r: Option<String>)
    ensures
        r == *o,
{
    match o {
        Some(s) => Some(s.clone()),
        None => None,
    }
}

/// The bindings that successful binds of `binds`, in order, leave in `m`.
pub open spec fn apply_binds(m: Map<Seq<char>, u128>, binds: Seq<(Seq<char>, u128)>) -> Map<
    Seq<char>,
    u128,
>
    decreases binds.len(),
{
    if binds.len() == 0 {
        m
    } else {
        apply_binds(m, binds.drop_last()).insert(binds.last().0, binds.last().1)
    }
}

/// The id of the last bind of `name` in `binds`, if there is one.
pub open spec fn last_bind(binds: Seq<(Seq<char>, u128)>, name: Seq<char>) -> Option<u128>
    decreases binds.len(),
{
    if binds.len() == 0 {
        None
    } else if binds.last().0 == name {
        Some(binds.last().1)
    } else {
        last_bind(binds.drop_last(), name)
    }
}

/// Last write wins: after any sequence of binds, a name resolves to the id
/// of its most recent bind, and a name never bound keeps what it had.
pub proof fn lemma_last_bind_wins(
    m: Map<Seq<char>, u128>,
    binds: Seq<(Seq<char>, u128)>,
    name: Seq<char>,
)
    ensures
        last_bind(binds, name) matches Some(id) ==> apply_binds(m, binds).contains_key(name)
            && apply_binds(m, binds)[name] == id,
        last_bind(binds, name) is None ==> apply_binds(m, binds).contains_key(name)
            == m.contains_key(name) && apply_binds(m, binds)[name] == m[name],
    decreases binds.len(),
{
    if binds.len() > 0 {
        lemma_last_bind_wins(m, binds.drop_last(), name);
    }
}

/// In a well-formed registry every hostname and every service name resolves
/// to a registered runtime.
pub proof fn lemma_names_resolve(registry: StandardRuntimeManager)
    requires
        registry.wf(),
    ensures
        forall|h: Seq<char>| #[trigger]
            registry.hostnames().contains_key(h) ==> registry.runtimes().contains_key(
                registry.hostnames()[h],
            ),
        forall|s: Seq<char>| #[trigger]
            registry.servicenames().contains_key(s) ==> registry.runtimes().contains_key(
                registry.servicenames()[s],
            ),
{
}

} // verus!
