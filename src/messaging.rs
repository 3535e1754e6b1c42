//! Cross-runtime messaging: service calls addressed by service name, the
//! delivery of their responses, and the deadlines that bound every wait.
use crate::ids::{StreamIdCounter, runtime_id_text, simple_uuid_text, successor};
use crate::registry::{
    CorrelationFailure,
    DispatchError,
    StandardRuntimeManager,
    accepting,
    settle_outcome,
    table_replaced,
};
use crate::responses::{EventKind, PendingResponse};
use crate::runtime::Runtime;
use vstd::prelude::*;

verus! {

/// The event a service call hands to its destination.
pub struct ServiceRequest {
    /// Correlation id the destination answers under.
    pub id: u32,
    /// The runtime that serves the call.
    pub destination: u128,
    /// Id of the calling runtime, in simple text form.
    pub sender: String,
    pub data: String,
}

/// What a destination answers to a service call.
pub struct ServiceResponse {
    pub success: bool,
    pub data: Option<String>,
}

/// A response matched with its waiter.
pub struct Delivery {
    pub id: u32,
    /// The runtime that made the call, or `None` for a listener.
    pub caller: Option<u128>,
    pub response: ServiceResponse,
}

/// Why a service call failed.
#[derive(Clone, Copy, Debug, PartialEq, Eq, Structural)]
pub enum CallError {
    /// No runtime is bound to the service name.
    UnknownDestination,
    /// The service name leads back to the caller, whose single loop could not
    /// serve the call while it waits for it.
    SelfCallRejected,
    /// The destination's loop takes no events.
    NotAccepting(u128),
    /// The destination could not take the event.
    Dispatch(DispatchError),
    /// No response came before the deadline.
    Timeout(u32),
}

/// Where a call stands.
#[derive(Clone, Copy, Debug, PartialEq, Eq, Structural)]
pub enum CallStatus {
    /// Still owed, and its deadline has not passed.
    Waiting,
    /// No longer owed: answered, or failed when its runtime went away.
    Settled,
}

/// `now + timeout`, held at `u64::MAX`.
pub open spec fn deadline_after(now: u64, timeout: u64) -> u64 {
    if now as int + timeout as int > u64::MAX as int {
        u64::MAX
    } else {
        (now + timeout) as u64
    }
}

/// One service call from `caller` to the runtime bound to `name`, with
/// `next` the correlation id the call would draw: `r` is its result, and
/// `after` the runtimes it leaves behind.
pub open spec fn call_step(
    before: Map<u128, Runtime>,
    services: Map<Seq<char>, u128>,
    after: Map<u128, Runtime>,
    next: u32,
    caller: u128,
    name: Seq<char>,
    payload: String,
    deadline: u64,
    r: Result<ServiceRequest, CallError>,
) -> bool {
    if !services.contains_key(name) {
        r == Err::<ServiceRequest, CallError>(CallError::UnknownDestination) && after == before
    } else if services[name] == caller {
        r == Err::<ServiceRequest, CallError>(CallError::SelfCallRejected) && after == before
    } else if !accepting(before, services[name]) {
        r == Err::<ServiceRequest, CallError>(CallError::NotAccepting(services[name])) && after
            == before
    } else if before[services[name]].responses@.contains_key(next) {
        r == Err::<ServiceRequest, CallError>(CallError::Dispatch(DispatchError::IdInUse(next)))
            && after == before
    } else {
        &&& r matches Ok(req)
        &&& req.id == next
        &&& req.destination == services[name]
        &&& req.sender@ == simple_uuid_text(caller)
        &&& req.data == payload
        &&& table_replaced(
            before,
            after,
            services[name],
            before[services[name]].responses@.insert(
                next,
                PendingResponse { id: next, kind: EventKind::Service, caller: Some(caller), deadline },
            ),
        )
    }
}

/// A service call from `caller` to `name` gets as far as drawing a
/// correlation id: the name is bound to another runtime, which takes events.
pub open spec fn draws_id(
    runtimes: Map<u128, Runtime>,
    services: Map<Seq<char>, u128>,
    caller: u128,
    name: Seq<char>,
) -> bool {
    services.contains_key(name) && services[name] != caller && accepting(runtimes, services[name])
}

/// The result of delivering `response` as the answer owed by `at` under `id`.
pub open spec fn delivery_outcome(
    runtimes: Map<u128, Runtime>,
    at: u128,
    id: u32,
    response: ServiceResponse,
) -> Result<Delivery, CorrelationFailure> {
    match settle_outcome(runtimes, at, id, EventKind::Service) {
        Ok(entry) => Ok(Delivery { id, caller: entry.caller, response }),
        Err(f) => Err(f),
    }
}

/// One delivery of `response` as the answer owed by `at` under `id`: `r` is
/// its result and `after` the runtimes it leaves behind.
pub open spec fn delivery_step(
    before: Map<u128, Runtime>,
    after: Map<u128, Runtime>,
    at: u128,
    id: u32,
    response: ServiceResponse,
    r: Result<Delivery, CorrelationFailure>,
) -> bool {
    &&& r == delivery_outcome(before, at, id, response)
    &&& r is Err ==> after == before
    &&& r is Ok ==> table_replaced(before, after, at, before[at].responses@.remove(id))
}

/// The messaging protocol of one host: its source of correlation ids, and
/// how long a caller waits for a response.
pub struct MessagingProtocol {
    pub ids: StreamIdCounter,
    /// Longest wait for a response, in the units of the callers' clock.
    pub call_timeout: u64,
}

impl MessagingProtocol {
    /// A protocol whose first id is zero and whose waits last `call_timeout`.
    pub fn new(call_timeout: u64) -> (r: Self)
        ensures
            r.ids.next == 0,
            r.call_timeout == call_timeout,
    {
        MessagingProtocol { ids: StreamIdCounter::new(), call_timeout }
    }

    /// The deadline of a wait that starts at `now`.
    pub fn deadline(&self, now: u64) -> (r: u64)
        ensures
            r == deadline_after(now, self.call_timeout),
    {
        if now > u64::MAX - self.call_timeout {
            u64::MAX
        } else {
            now + self.call_timeout
        }
    }

    /// Hands an event of kind `kind` from a listener to runtime `target` at
    /// instant `now`; see [`StandardRuntimeManager::dispatch`].
    pub fn dispatch_event(
        &mut self,
        registry: &mut StandardRuntimeManager,
        target: u128,
        kind: EventKind,
        now: u64,
    ) -> (r: Option<Result<u32, DispatchError>>)
        requires
            old(registry).wf(),
        ensures
            final(registry).wf(),
            final(registry).hostnames() == old(registry).hostnames(),
            final(registry).servicenames() == old(registry).servicenames(),
            final(self).call_timeout == old(self).call_timeout,
            !accepting(old(registry).runtimes(), target) ==> r is None && final(registry).runtimes()
                == old(registry).runtimes() && final(self).ids == old(self).ids,
            accepting(old(registry).runtimes(), target) ==> final(self).ids.next == successor(
                old(self).ids.next,
            ),
            accepting(old(registry).runtimes(), target)
                && old(registry).runtimes()[target].responses@.contains_key(old(self).ids.next) ==> r
                == Some(Err::<u32, DispatchError>(DispatchError::IdInUse(old(self).ids.next)))
                && final(registry).runtimes() == old(registry).runtimes(),
            accepting(old(registry).runtimes(), target)
                && !old(registry).runtimes()[target].responses@.contains_key(old(self).ids.next)
                ==> r == Some(Ok::<u32, DispatchError>(old(self).ids.next)) && table_replaced(
                old(registry).runtimes(),
                final(registry).runtimes(),
                target,
                old(registry).runtimes()[target].responses@.insert(
                    old(self).ids.next,
                    PendingResponse {
                        id: old(self).ids.next,
                        kind,
                        caller: None,
                        deadline: deadline_after(now, old(self).call_timeout),
                    },
                ),
            ),
    {
        let deadline = self.deadline(now);
        registry.dispatch(&mut self.ids, target, kind, None, deadline)
    }

    /// Calls, on behalf of runtime `caller` and at instant `now`, the service
    /// bound to `destination_name` with `payload`.
    ///
    /// Nothing is dispatched when the name is unbound or leads back to the
    /// caller. On success the destination owes a response to `caller` under
    /// the returned request's id, and the caller's wait ends at the deadline.
    pub fn call_service(
        &mut self,
        registry: &mut StandardRuntimeManager,
        caller: u128,
        destination_name: &str,
        payload: String,
        now: u64,
    ) -> (r: Result<ServiceRequest, CallError>)
        requires
            old(registry).wf(),
        ensures
            final(registry).wf(),
            final(registry).hostnames() == old(registry).hostnames(),
            final(registry).servicenames() == old(registry).servicenames(),
            final(self).call_timeout == old(self).call_timeout,
            call_step(
                old(registry).runtimes(),
                old(registry).servicenames(),
                final(registry).runtimes(),
                old(self).ids.next,
                caller,
                destination_name@,
                payload,
                deadline_after(now, old(self).call_timeout),
                r,
            ),
            final(self).ids.next == if draws_id(
                old(registry).runtimes(),
                old(registry).servicenames(),
                caller,
                destination_name@,
            ) {
                successor(old(self).ids.next)
            } else {
                old(self).ids.next
            },
    {
        let destination = match registry.uuid_by_servicename(destination_name) {
            Some(id) => id,
            None => return Err(CallError::UnknownDestination),
        };
        if destination == caller {
            return Err(CallError::SelfCallRejected);
        }
        let deadline = self.deadline(now);
        match registry.dispatch(&mut self.ids, destination, EventKind::Service, Some(caller), deadline) {
            None => Err(CallError::NotAccepting(destination)),
            Some(Err(e)) => Err(CallError::Dispatch(e)),
            Some(Ok(id)) => Ok(
                ServiceRequest { id, destination, sender: runtime_id_text(caller), data: payload },
            ),
        }
    }

    /// Delivers `response`, emitted by runtime `at` for the service request
    /// `id`, to the caller that waits for it. A response for an id that is
    /// not owed, or no longer, is refused and changes nothing.
    pub fn deliver_service_response(
        registry: &mut StandardRuntimeManager,
        at: u128,
        id: u32,
        response: ServiceResponse,
    ) -> (r: Result<Delivery, CorrelationFailure>)
        requires
            old(registry).wf(),
        ensures
            final(registry).wf(),
            final(registry).hostnames() == old(registry).hostnames(),
            final(registry).servicenames() == old(registry).servicenames(),
            delivery_step(old(registry).runtimes(), final(registry).runtimes(), at, id, response, r),
    {
        match registry.take_response(at, id, EventKind::Service) {
            Ok(entry) => Ok(Delivery { id, caller: entry.caller, response }),
            Err(f) => Err(f),
        }
    }

    /// Checks, at instant `now`, the wait for what runtime `at` owes under
    /// `id`. A wait whose deadline has passed fails with a timeout, and the
    /// entry is dropped so that a late answer is refused.
    pub fn poll_call(registry: &mut StandardRuntimeManager, at: u128, id: u32, now: u64) -> (r:
        Result<CallStatus, CallError>)
        requires
            old(registry).wf(),
        ensures
            final(registry).wf(),
            final(registry).hostnames() == old(registry).hostnames(),
            final(registry).servicenames() == old(registry).servicenames(),
            ({
                let before = old(registry).runtimes();
                if !(before.contains_key(at) && before[at].responses@.contains_key(id)) {
                    r == Ok::<CallStatus, CallError>(CallStatus::Settled) && final(registry).runtimes() == before
                } else if now < before[at].responses@[id].deadline {
                    r == Ok::<CallStatus, CallError>(CallStatus::Waiting) && final(registry).runtimes() == before
                } else {
                    r == Err::<CallStatus, CallError>(CallError::Timeout(id)) && table_replaced(
                        before,
                        final(registry).runtimes(),
                        at,
                        before[at].responses@.remove(id),
                    )
                }
            }),
    {
        match registry.pending(at, id) {
            None => Ok(CallStatus::Settled),
            Some(entry) => {
                if now < entry.deadline {
                    Ok(CallStatus::Waiting)
                } else {
                    let _ = registry.take_response(at, id, entry.kind);
                    Err(CallError::Timeout(id))
                }
            },
        }
    }
}

/// A response settles its call once. Delivered twice under the same id,
/// the first reaches the waiter that the call recorded, and the second is
/// refused and leaves everything as the first left it.
pub proof fn lemma_response_delivered_once(
    s0: Map<u128, Runtime>,
    s1: Map<u128, Runtime>,
    s2: Map<u128, Runtime>,
    at: u128,
    id: u32,
    first: ServiceResponse,
    second: ServiceResponse,
    r1: Result<Delivery, CorrelationFailure>,
    r2: Result<Delivery, CorrelationFailure>,
)
    requires
        delivery_step(s0, s1, at, id, first, r1),
        delivery_step(s1, s2, at, id, second, r2),
    ensures
        s0.contains_key(at) && s0[at].responses@.contains_key(id) && s0[at].responses@[id].kind
            == EventKind::Service ==> r1 == Ok::<Delivery, CorrelationFailure>(
            Delivery { id, caller: s0[at].responses@[id].caller, response: first },
        ),
        r2 is Err,
        r1 is Ok ==> r2 == Err::<Delivery, CorrelationFailure>(CorrelationFailure::NoReceiver(id)),
        s2 == s1,
{
}

/// A payload survives the round trip: a destination that answers a service
/// request with success and the request's own data hands the caller exactly
/// the payload it sent.
pub proof fn lemma_payload_round_trip(
    s0: Map<u128, Runtime>,
    services: Map<Seq<char>, u128>,
    s1: Map<u128, Runtime>,
    s2: Map<u128, Runtime>,
    next: u32,
    caller: u128,
    name: Seq<char>,
    payload: String,
    deadline: u64,
    call: Result<ServiceRequest, CallError>,
    answer: ServiceResponse,
    r: Result<Delivery, CorrelationFailure>,
)
    requires
        call_step(s0, services, s1, next, caller, name, payload, deadline, call),
        call is Ok,
        answer == (ServiceResponse { success: true, data: Some(call->Ok_0.data) }),
        delivery_step(s1, s2, call->Ok_0.destination, call->Ok_0.id, answer, r),
    ensures
        r == Ok::<Delivery, CorrelationFailure>(
            Delivery {
                id: next,
                caller: Some(caller),
                response: ServiceResponse { success: true, data: Some(payload) },
            },
        ),
{
}

} // verus!
