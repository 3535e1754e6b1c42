//! The runtime selector: turns a hostname's release into a running runtime,
//! creating at most one runtime per app and version.
use crate::names::{NameIndex, without_id};
use crate::registry::{RuntimeManagerError, StandardRuntimeManager};
use crate::release::{Release, cache_key, release_key};
use crate::responses::{PendingResponse, ids_unique, pending_map};
use crate::runtime::{Runtime, RuntimeConfig, RuntimeState};
use crate::storage::{GlobalSettings, build_storage_settings, derived_from, opt_view};
use vstd::prelude::*;
use vstd::string::*;

verus! {

/// Why a hostname could not be resolved.
#[derive(Debug)]
pub enum SelectorError {
    /// The release lookup failed, or no runtime could be registered.
    Failure(String),
}

/// The runtime a hostname resolved to.
#[derive(Clone, Copy, Debug, PartialEq, Eq, Structural)]
pub struct Resolved {
    pub id: u128,
    /// Whether the runtime was created by this resolution; its scripts are
    /// then still to be loaded and its loop to be started.
    pub created: bool,
}

/// `rt` is the runtime created under `id` for release `rel`.
pub open spec fn tenant_runtime(rt: Runtime, id: u128, rel: Release, g: GlobalSettings) -> bool {
    &&& rt.id == id
    &&& opt_view(rt.name) == Some(rel.app_id@)
    &&& opt_view(rt.version) == Some(rel.version@)
    &&& rt.settings matches Some(st) && derived_from(st, rel.app_id@, g)
    &&& rt.state == RuntimeState::Created
    &&& rt.responses.wf()
    &&& rt.responses@ == Map::<u32, PendingResponse>::empty()
}

/// One resolution: from the release keys `keys` and the registered
/// `runtimes`, the lookup result `lookup` gives `r` and leaves `keys2` and
/// `runtimes2`.
pub open spec fn resolve_step(
    keys: Map<Seq<char>, u128>,
    runtimes: Map<u128, Runtime>,
    keys2: Map<Seq<char>, u128>,
    runtimes2: Map<u128, Runtime>,
    g: GlobalSettings,
    lookup: Result<Option<Release>, String>,
    r: Result<Option<Resolved>, SelectorError>,
) -> bool {
    match lookup {
        Err(e) => r == Err::<Option<Resolved>, SelectorError>(SelectorError::Failure(e)) && keys2
            == keys && runtimes2 == runtimes,
        Ok(None) => r == Ok::<Option<Resolved>, SelectorError>(None) && keys2 == keys && runtimes2
            == runtimes,
        Ok(Some(rel)) => {
            let k = release_key(rel.app_id@, rel.version@);
            if keys.contains_key(k) && runtimes.contains_key(keys[k]) {
                &&& r == Ok::<Option<Resolved>, SelectorError>(
                    Some(Resolved { id: keys[k], created: false }),
                )
                &&& keys2 == keys
                &&& runtimes2 == runtimes
            } else {
                match r {
                    Ok(Some(res)) => {
                        &&& res.created
                        &&& !runtimes.contains_key(res.id)
                        &&& runtimes2 == runtimes.insert(res.id, runtimes2[res.id])
                        &&& tenant_runtime(runtimes2[res.id], res.id, rel, g)
                        &&& keys2 == keys.insert(k, res.id)
                    },
                    Ok(None) => false,
                    Err(_) => keys2 == keys && runtimes2 == runtimes,
                }
            }
        },
    }
}

/// Keeps one runtime per app and version, whatever hostname leads to it.
pub struct DistributedRuntimeSelector {
    keys: NameIndex,
    settings: GlobalSettings,
}

impl DistributedRuntimeSelector {
    /// The release keys and the runtimes they lead to.
    pub closed spec fn keys(&self) -> Map<Seq<char>, u128> {
        self.keys@
    }

    /// The process-wide settings tenants' storage is derived from.
    pub closed spec fn settings(&self) -> GlobalSettings {
        self.settings
    }

    /// The selector is well formed.
    pub closed spec fn wf(&self) -> bool {
        self.keys.wf()
    }

    /// A selector that knows no runtime yet.
    pub fn new(settings: GlobalSettings) -> (r: Self)
        ensures
            r.wf(),
            r.keys() == Map::<Seq<char>, u128>::empty(),
            r.settings() == settings,
    {
        DistributedRuntimeSelector { keys: NameIndex::new(), settings }
    }

    /// Resolves a hostname, given what the release lookup reported for it.
    ///
    /// An unknown host gives `Ok(None)`, a failed lookup an error. Otherwise
    /// the runtime of the release's app and version is returned, created and
    /// registered, with the storage derived for the app, when none is
    /// registered for that key yet.
    pub fn resolve(
        &mut self,
        registry: &mut StandardRuntimeManager,
        lookup: &Result<Option<Release>, String>,
    ) -> (r: Result<Option<Resolved>, SelectorError>)
        requires
            old(self).wf(),
            old(registry).wf(),
        ensures
            final(self).wf(),
            final(registry).wf(),
            final(self).settings() == old(self).settings(),
            final(registry).hostnames() == old(registry).hostnames(),
            final(registry).servicenames() == old(registry).servicenames(),
            resolve_step(
                old(self).keys(),
                old(registry).runtimes(),
                final(self).keys(),
                final(registry).runtimes(),
                old(self).settings(),
                *lookup,
                r,
            ),
    {
        let rel = match lookup {
            Err(e) => return Err(SelectorError::Failure(e.clone())),
            Ok(None) => return Ok(None),
            Ok(Some(rel)) => rel,
        };
        let key = cache_key(rel.app_id.as_str(), rel.version.as_str());
        if let Some(id) = self.keys.get(key.as_str()) {
            if registry.get_by_uuid(id).is_some() {
                return Ok(Some(Resolved { id, created: false }));
            }
        }
        let config = RuntimeConfig {
            name: Some(rel.app_id.clone()),
            version: Some(rel.version.clone()),
            settings: Some(build_storage_settings(rel.app_id.as_str(), &self.settings)),
        };
        match registry.new_runtime(config) {
            Ok(id) => {
                self.keys.bind(key.as_str(), id);
                Ok(Some(Resolved { id, created: true }))
            },
            Err(_) => Err(SelectorError::Failure(String::from_str("runtime id already taken"))),
        }
    }

    /// Disposes of runtime `id`, whose loop ended or which is being removed:
    /// it leaves the registry with its names, and its release key leads
    /// nowhere, so that the next resolution creates a fresh runtime. Returns
    /// the responses it still owed.
    pub fn runtime_ended(&mut self, registry: &mut StandardRuntimeManager, id: u128) -> (r: Result<
        Vec<PendingResponse>,
        RuntimeManagerError,
    >)
        requires
            old(self).wf(),
            old(registry).wf(),
        ensures
            final(self).wf(),
            final(registry).wf(),
            final(self).settings() == old(self).settings(),
            final(self).keys() == without_id(old(self).keys(), id),
            !old(registry).runtimes().contains_key(id) ==> r == Err::<
                Vec<PendingResponse>,
                RuntimeManagerError,
            >(RuntimeManagerError::UnknownRuntime(id)) && final(registry).runtimes() == old(
                registry,
            ).runtimes() && final(registry).hostnames() == old(registry).hostnames()
                && final(registry).servicenames() == old(registry).servicenames(),
            old(registry).runtimes().contains_key(id) ==> (r matches Ok(v) && ids_unique(v@)
                && pending_map(v@) == old(registry).runtimes()[id].responses@)
                && final(registry).runtimes() == old(registry).runtimes().remove(id)
                && final(registry).hostnames() == without_id(old(registry).hostnames(), id)
                && final(registry).servicenames() == without_id(old(registry).servicenames(), id),
    {
        self.keys.unbind_id(id);
        registry.remove_runtime(id)
    }
}

/// One runtime per release key: once a resolution has returned a runtime for
/// a key, a later resolution of any hostname whose release has that key
/// returns the same runtime and constructs none.
pub proof fn lemma_one_runtime_per_key(
    k0: Map<Seq<char>, u128>,
    s0: Map<u128, Runtime>,
    k1: Map<Seq<char>, u128>,
    s1: Map<u128, Runtime>,
    k2: Map<Seq<char>, u128>,
    s2: Map<u128, Runtime>,
    g: GlobalSettings,
    first: Result<Option<Release>, String>,
    second: Result<Option<Release>, String>,
    r1: Result<Option<Resolved>, SelectorError>,
    r2: Result<Option<Resolved>, SelectorError>,
)
    requires
        resolve_step(k0, s0, k1, s1, g, first, r1),
        resolve_step(k1, s1, k2, s2, g, second, r2),
        first matches Ok(Some(a)) && second matches Ok(Some(b)) && release_key(a.app_id@, a.version@)
            == release_key(b.app_id@, b.version@),
        r1 matches Ok(Some(_)),
    ensures
        r2 == Ok::<Option<Resolved>, SelectorError>(
            Some(Resolved { id: r1->Ok_0->Some_0.id, created: false }),
        ),
        k2 == k1,
        s2 == s1,
        s1 == s0 || s1 == s0.insert(r1->Ok_0->Some_0.id, s1[r1->Ok_0->Some_0.id]),
{
}

} // verus!
