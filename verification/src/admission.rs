//! The connection-admission controller: on each timer tick it reads the
//! worker's active-connection count and decides whether to launch one new
//! session-establishment task, always rescheduling itself at the same fixed
//! cadence.

use vstd::prelude::*;

use crate::config::SocketAddr;

verus! {

/// The configuration surface this core consumes: where to connect, how many
/// sessions one worker may keep alive, and how often to try opening one.
#[derive(Clone, Copy, PartialEq, Eq, Debug)]
pub struct LoadTestConfig {
    pub server_address: SocketAddr,
    pub num_connections_per_worker: usize,
    pub connection_creation_interval_ms: u64,
}

/// What one tick decided: whether to launch one establishment task, and
/// when the next tick fires. The interval is static, never adaptive.
#[derive(Clone, Copy, PartialEq, Eq, Debug)]
pub struct TickDecision {
    pub launch: bool,
    pub next_tick_ms: u64,
}

/// The per-worker admission controller: a capacity and a fixed cadence.
#[derive(Clone, Copy, PartialEq, Eq, Debug)]
pub struct AdmissionController {
    pub capacity: usize,
    pub interval_ms: u64,
}

/// One admission tick in the settled model, where an admitted session has
/// finished establishing before anything else is observed: under capacity
/// the count grows by one, at or over capacity it stays.
pub open spec fn tick_settled(active: nat, capacity: nat) -> nat {
    if active < capacity {
        active + 1
    } else {
        active
    }
}

/// The events that move a worker's active-connection count in the settled
/// model: an admission tick, or the exit of one live session.
#[derive(Clone, Copy, PartialEq, Eq, Debug)]
pub enum WorkerEvent {
    Tick,
    SessionExit,
}

/// The active-connection count after one settled event.
pub open spec fn apply_worker_event(active: nat, capacity: nat, event: WorkerEvent) -> nat {
    match event {
        WorkerEvent::Tick => tick_settled(active, capacity),
        WorkerEvent::SessionExit => if active > 0 {
            (active - 1) as nat
        } else {
            active
        },
    }
}

/// The active-connection count after a whole sequence of settled events.
pub open spec fn run_worker_events(active: nat, capacity: nat, events: Seq<WorkerEvent>) -> nat
    decreases events.len(),
{
    if events.len() == 0 {
        active
    } else {
        run_worker_events(apply_worker_event(active, capacity, events[0]), capacity, events.skip(1))
    }
}

/// Law: for every sequence of ticks and session exits, a settled
/// active-connection count that starts within capacity stays within
/// capacity; transient overshoot can only come from in-flight
/// establishment, never from the controller's decisions.
pub proof fn lemma_active_count_bounded(active: nat, capacity: nat, events: Seq<WorkerEvent>)
    requires
        active <= capacity,
    ensures
        run_worker_events(active, capacity, events) <= capacity,
    decreases events.len(),
{
    if events.len() > 0 {
        lemma_active_count_bounded(apply_worker_event(active, capacity, events[0]), capacity, events.skip(1));
    }
}

/// Law: one tick launches at most one session, however far under capacity
/// the worker is: the settled count grows by at most one per tick.
pub proof fn lemma_tick_launches_at_most_one(active: nat, capacity: nat)
    ensures
        tick_settled(active, capacity) <= active + 1,
{
}

impl AdmissionController {
    /// A controller for one worker, taken from the configuration.
    pub fn new(config: &LoadTestConfig) -> (r: AdmissionController)
        ensures
            r.capacity == config.num_connections_per_worker,
            r.interval_ms == config.connection_creation_interval_ms,
    {
        AdmissionController {
            capacity: config.num_connections_per_worker,
            interval_ms: config.connection_creation_interval_ms,
        }
    }

    /// One tick: launch exactly one establishment task if and only if the
    /// count read at decision time is under capacity, and fire again after
    /// the same fixed interval. Launching one settles the model count to
    /// `tick_settled`.
    pub fn tick(&self, active_connections: usize) -> (r: TickDecision)
        ensures
            r.launch == (active_connections < self.capacity),
            r.next_tick_ms == self.interval_ms,
            (if r.launch {
                active_connections + 1int
            } else {
                active_connections as int
            }) == tick_settled(active_connections as nat, self.capacity as nat),
    {
        TickDecision {
            launch: active_connections < self.capacity,
            next_tick_ms: self.interval_ms,
        }
    }
}

} // verus!
