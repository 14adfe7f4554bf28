//! The per-connection state machine and the state shared by all connections.
use vstd::prelude::*;
use crate::gate::{AdmissionGate, Permit};
use crate::monitor::SessionMonitor;
use crate::rate_limit::{decide, RateLimiter};

verus! {

/// Limits the gateway runs with.
#[derive(PartialEq, Eq, Structural, Clone, Copy, Debug)]
pub struct GatewayConfig {
    pub port: u16,
    pub max_sessions: usize,
    pub rate_limit_per_min: usize,
    pub idle_timeout_ms: u64,
    pub max_session_ms: u64,
}

/// State shared by every connection, created once at startup.
pub struct GatewayState {
    pub limiter: RateLimiter,
    pub gate: AdmissionGate,
    pub idle_timeout_ms: u64,
    pub max_session_ms: u64,
}

impl GatewayState {
    pub open spec fn wf(&self) -> bool {
        self.limiter.wf()
    }

    pub fn new(config: GatewayConfig) -> (r: GatewayState)
        ensures
            r.wf(),
            r.limiter.spec_threshold() == config.rate_limit_per_min,
            forall|a: u128| #[trigger] r.limiter.history(a) == Seq::<u64>::empty(),
            r.gate.capacity() == config.max_sessions,
            r.gate.active() == 0,
            r.idle_timeout_ms == config.idle_timeout_ms,
            r.max_session_ms == config.max_session_ms,
    {
        GatewayState {
            limiter: RateLimiter::new(config.rate_limit_per_min),
            gate: AdmissionGate::new(config.max_sessions),
            idle_timeout_ms: config.idle_timeout_ms,
            max_session_ms: config.max_session_ms,
        }
    }
}

/// Where a connection stands.
#[derive(PartialEq, Eq, Structural, Clone, Copy, Debug)]
pub enum Phase {
    Unauthenticated,
    Authenticated,
    Active,
    Rejected,
    Closed,
}

/// The answer to a channel-open request.
#[derive(PartialEq, Eq, Structural, Clone, Copy, Debug)]
pub enum OpenDecision {
    /// Start the child process for this session.
    Spawn,
    /// The session's child already runs: accept and do nothing.
    AlreadyOpen,
    /// Refuse the channel.
    Refuse,
}

pub open spec fn open_outcome(p: Phase) -> OpenDecision {
    match p {
        Phase::Authenticated => OpenDecision::Spawn,
        Phase::Active => OpenDecision::AlreadyOpen,
        _ => OpenDecision::Refuse,
    }
}

/// Where a connection stands after a channel-open request, given whether
/// starting the child (when it was asked for) succeeded.
pub open spec fn after_open(p: Phase, spawned: bool) -> Phase {
    if open_outcome(p) == OpenDecision::Spawn {
        if spawned {
            Phase::Active
        } else {
            Phase::Rejected
        }
    } else {
        p
    }
}

/// How many children a series of channel-open requests starts, each
/// request followed by the outcome of the start it asked for.
pub open spec fn spawns(p: Phase, outcomes: Seq<bool>) -> nat
    decreases outcomes.len(),
{
    if outcomes.len() == 0 {
        0
    } else {
        (if open_outcome(p) == OpenDecision::Spawn {
            1nat
        } else {
            0nat
        }) + spawns(after_open(p, outcomes[0]), outcomes.drop_first())
    }
}

proof fn lemma_no_spawn_after(p: Phase, outcomes: Seq<bool>)
    requires
        p != Phase::Authenticated,
    ensures
        spawns(p, outcomes) == 0,
    decreases outcomes.len(),
{
    if outcomes.len() > 0 {
        lemma_no_spawn_after(after_open(p, outcomes[0]), outcomes.drop_first());
    }
}

/// A connection starts at most one child, whatever channel-open requests
/// arrive and however its start goes: once one start was asked for, the
/// connection is active or rejected, and neither asks again.
pub proof fn lemma_one_child_per_session(p: Phase, outcomes: Seq<bool>)
    ensures
        spawns(p, outcomes) <= 1,
        p == Phase::Active ==> spawns(p, outcomes) == 0,
    decreases outcomes.len(),
{
    if outcomes.len() > 0 {
        lemma_no_spawn_after(after_open(p, outcomes[0]), outcomes.drop_first());
    }
    if p == Phase::Active {
        lemma_no_spawn_after(p, outcomes);
    }
}

/// The bytes that reach the child's standard input from a series of
/// inbound data events, on a session bound to `bound`: the data of the
/// events on that channel, in the order they came, and nothing else.
pub open spec fn relayed_input(bound: u32, events: Seq<(u32, Seq<u8>)>) -> Seq<u8>
    decreases events.len(),
{
    if events.len() == 0 {
        Seq::empty()
    } else {
        let rest = relayed_input(bound, events.drop_last());
        if events.last().0 == bound {
            rest + events.last().1
        } else {
            rest
        }
    }
}

/// What one inbound data event hands to the child, given where the
/// connection stands.
pub open spec fn inbound_outcome(phase: Phase, bound: Option<u32>, channel: u32) -> bool {
    phase == Phase::Active && bound == Some(channel)
}

/// Handing a series of data events to an active session, one after the
/// other, forwards what `relayed_input` says: each event is decided on the
/// same phase and channel, so the data of the bound channel goes through
/// whole and in order.
pub proof fn lemma_inbound_in_order(bound: u32, events: Seq<(u32, Seq<u8>)>)
    ensures
        relayed_input(bound, events) == relayed_input_by_outcome(
            Phase::Active,
            Some(bound),
            events,
        ),
    decreases events.len(),
{
    if events.len() > 0 {
        lemma_inbound_in_order(bound, events.drop_last());
    }
}

/// The concatenation of what each event's outcome forwards.
pub open spec fn relayed_input_by_outcome(
    phase: Phase,
    bound: Option<u32>,
    events: Seq<(u32, Seq<u8>)>,
) -> Seq<u8>
    decreases events.len(),
{
    if events.len() == 0 {
        Seq::empty()
    } else {
        let rest = relayed_input_by_outcome(phase, bound, events.drop_last());
        if inbound_outcome(phase, bound, events.last().0) {
            rest + events.last().1
        } else {
            rest
        }
    }
}

/// One physical connection: its admission permit, its relay channel and the
/// timestamps of its session.
pub struct Connection {
    peer: Option<u128>,
    phase: Phase,
    permit: Option<Permit>,
    channel: Option<u32>,
    started_at: u64,
    last_activity: u64,
}

impl Connection {
    /// A permit is held exactly while authenticated or active, and a channel
    /// is bound exactly while active.
    pub closed spec fn wf(&self) -> bool {
        &&& (self.permit is Some <==> (self.phase == Phase::Authenticated || self.phase
            == Phase::Active))
        &&& (self.channel is Some <==> self.phase == Phase::Active)
    }

    pub closed spec fn spec_phase(&self) -> Phase {
        self.phase
    }

    pub closed spec fn spec_peer(&self) -> Option<u128> {
        self.peer
    }

    pub closed spec fn spec_channel(&self) -> Option<u32> {
        self.channel
    }

    pub closed spec fn spec_started_at(&self) -> u64 {
        self.started_at
    }

    pub closed spec fn spec_last_activity(&self) -> u64 {
        self.last_activity
    }

    /// The permit this connection holds, if any.
    pub closed spec fn spec_permit(&self) -> Option<Permit> {
        self.permit
    }

    /// A new connection from `peer`, opened at `now`.
    pub fn new(peer: Option<u128>, now: u64) -> (r: Connection)
        ensures
            r.wf(),
            r.spec_phase() == Phase::Unauthenticated,
            r.spec_peer() == peer,
            r.spec_channel() is None,
            r.spec_started_at() == now,
            r.spec_last_activity() == now,
    {
        Connection {
            peer,
            phase: Phase::Unauthenticated,
            permit: None,
            channel: None,
            started_at: now,
            last_activity: now,
        }
    }

    pub fn phase(&self) -> (r: Phase)
        ensures
            r == self.spec_phase(),
    {
        self.phase
    }

    pub fn channel(&self) -> (r: Option<u32>)
        ensures
            r == self.spec_channel(),
    {
        self.channel
    }

    pub fn started_at(&self) -> (r: u64)
        ensures
            r == self.spec_started_at(),
    {
        self.started_at
    }

    pub fn last_activity(&self) -> (r: u64)
        ensures
            r == self.spec_last_activity(),
    {
        self.last_activity
    }

    /// An authentication attempt at `now`. A fresh connection is admitted
    /// when the rate limiter allows its peer and a permit is free; it
    /// then holds the permit. Otherwise it is rejected for good. On a
    /// connection past that step nothing changes, and the answer is whether
    /// it was admitted.
    pub fn authenticate(&mut self, gw: &mut GatewayState, now: u64) -> (r: bool)
        requires
            old(self).wf(),
            old(gw).wf(),
        ensures
            final(self).wf(),
            final(gw).wf(),
            final(self).spec_peer() == old(self).spec_peer(),
            final(self).spec_started_at() == old(self).spec_started_at(),
            final(self).spec_last_activity() == old(self).spec_last_activity(),
            final(gw).limiter.spec_threshold() == old(gw).limiter.spec_threshold(),
            final(gw).gate.capacity() == old(gw).gate.capacity(),
            final(gw).idle_timeout_ms == old(gw).idle_timeout_ms,
            final(gw).max_session_ms == old(gw).max_session_ms,
            old(self).spec_phase() != Phase::Unauthenticated ==> {
                &&& r == (old(self).spec_phase() == Phase::Authenticated || old(self).spec_phase()
                    == Phase::Active)
                &&& *final(self) == *old(self)
                &&& final(gw).gate == old(gw).gate
                &&& forall|b: u128| #[trigger]
                    final(gw).limiter.history(b) == old(gw).limiter.history(b)
            },
            old(self).spec_phase() == Phase::Unauthenticated ==> {
                let rate_ok = match old(self).spec_peer() {
                    None => true,
                    Some(a) => decide(
                        old(gw).limiter.history(a),
                        old(gw).limiter.spec_threshold(),
                        now,
                    ).0,
                };
                &&& r == (rate_ok && old(gw).gate.active() < old(gw).gate.capacity())
                &&& final(self).spec_phase() == if r {
                    Phase::Authenticated
                } else {
                    Phase::Rejected
                }
                &&& final(self).spec_channel() is None
                &&& match old(self).spec_peer() {
                    None => forall|b: u128| #[trigger]
                        final(gw).limiter.history(b) == old(gw).limiter.history(b),
                    Some(a) => {
                        &&& final(gw).limiter.history(a) == decide(
                            old(gw).limiter.history(a),
                            old(gw).limiter.spec_threshold(),
                            now,
                        ).1
                        &&& forall|b: u128|
                            b != a ==> #[trigger] final(gw).limiter.history(b)
                                == old(gw).limiter.history(b)
                    },
                }
                &&& if r {
                    &&& final(gw).gate.active() == old(gw).gate.active() + 1
                    &&& final(self).spec_permit() matches Some(p) && final(gw).gate.holds(&p)
                } else {
                    final(gw).gate == old(gw).gate
                }
            },
    {
        match self.phase {
            Phase::Unauthenticated => {},
            Phase::Authenticated => {
                return true;
            },
            Phase::Active => {
                return true;
            },
            _ => {
                return false;
            },
        }
        if !gw.limiter.allow(self.peer, now) {
            self.phase = Phase::Rejected;
            return false;
        }
        match gw.gate.try_acquire() {
            Some(p) => {
                self.permit = Some(p);
                self.phase = Phase::Authenticated;
                true
            },
            None => {
                self.phase = Phase::Rejected;
                false
            },
        }
    }

    /// A channel-open request: only an authenticated connection starts its
    /// child; an active one already has it.
    pub fn open_channel(&self) -> (r: OpenDecision)
        ensures
            r == open_outcome(self.spec_phase()),
    {
        match self.phase {
            Phase::Authenticated => OpenDecision::Spawn,
            Phase::Active => OpenDecision::AlreadyOpen,
            _ => OpenDecision::Refuse,
        }
    }

    /// The result of starting the child for `channel`. On success the session
    /// becomes active, bound to `channel`, and gets the monitor for its relay
    /// task; on failure its permit is handed back and the connection
    /// is rejected. Only an authenticated connection is affected.
    pub fn spawn_finished(&mut self, gw: &mut GatewayState, channel: u32, spawned: bool) -> (r:
        Option<SessionMonitor>)
        requires
            old(self).wf(),
        ensures
            final(self).wf(),
            final(gw).wf() == old(gw).wf(),
            final(gw).limiter == old(gw).limiter,
            final(gw).idle_timeout_ms == old(gw).idle_timeout_ms,
            final(gw).max_session_ms == old(gw).max_session_ms,
            final(gw).gate.capacity() == old(gw).gate.capacity(),
            final(self).spec_peer() == old(self).spec_peer(),
            final(self).spec_started_at() == old(self).spec_started_at(),
            final(self).spec_last_activity() == old(self).spec_last_activity(),
            final(self).spec_phase() == after_open(old(self).spec_phase(), spawned),
            old(self).spec_phase() != Phase::Authenticated ==> r is None && *final(self) == *old(self)
                && final(gw).gate == old(gw).gate,
            old(self).spec_phase() == Phase::Authenticated && spawned ==> {
                &&& final(self).spec_phase() == Phase::Active
                &&& final(self).spec_channel() == Some(channel)
                &&& final(self).spec_permit() == old(self).spec_permit()
                &&& final(gw).gate == old(gw).gate
                &&& r == Some(
                    SessionMonitor {
                        started_at: old(self).spec_started_at(),
                        idle_timeout: old(gw).idle_timeout_ms,
                        max_duration: old(gw).max_session_ms,
                        finished: false,
                    },
                )
            },
            old(self).spec_phase() == Phase::Authenticated && !spawned ==> {
                &&& r is None
                &&& final(self).spec_phase() == Phase::Rejected
                &&& final(self).spec_permit() is None
                &&& old(self).spec_permit() matches Some(p) && (if old(gw).gate.holds(&p) {
                    final(gw).gate.active() + 1 == old(gw).gate.active()
                        && final(gw).gate.in_use() == old(gw).gate.in_use().update(
                        p.id() as int,
                        false,
                    )
                } else {
                    final(gw).gate == old(gw).gate
                })
            },
    {
        if self.phase != Phase::Authenticated {
            return None;
        }
        if spawned {
            self.channel = Some(channel);
            self.phase = Phase::Active;
            Some(SessionMonitor::new(self.started_at, gw.idle_timeout_ms, gw.max_session_ms))
        } else {
            let held = self.permit.take();
            if let Some(p) = held {
                gw.gate.release(p);
            }
            self.phase = Phase::Rejected;
            None
        }
    }

    /// Inbound data on `channel` at `now`. Data on the session's own channel
    /// is handed back, unchanged, for the child's standard input, and counts
    /// as activity; anything else is dropped.
    pub fn inbound<'a>(&mut self, channel: u32, data: &'a [u8], now: u64) -> (r: Option<&'a [u8]>)
        requires
            old(self).wf(),
        ensures
            final(self).wf(),
            final(self).spec_phase() == old(self).spec_phase(),
            final(self).spec_channel() == old(self).spec_channel(),
            final(self).spec_permit() == old(self).spec_permit(),
            final(self).spec_peer() == old(self).spec_peer(),
            final(self).spec_started_at() == old(self).spec_started_at(),
            inbound_outcome(old(self).spec_phase(), old(self).spec_channel(), channel) ==> r == Some(
                data,
            ) && final(self).spec_last_activity() == now,
            !inbound_outcome(old(self).spec_phase(), old(self).spec_channel(), channel) ==> r is None
                && final(self).spec_last_activity() == old(self).spec_last_activity(),
    {
        if self.phase == Phase::Active && self.channel == Some(channel) {
            self.last_activity = now;
            Some(data)
        } else {
            None
        }
    }

    /// Tears the session down: the permit, if held, is handed back and
    /// the connection is closed (a rejected one stays rejected). The answer
    /// is whether a slot was freed.
    pub fn close(&mut self, gw: &mut GatewayState) -> (r: bool)
        requires
            old(self).wf(),
        ensures
            final(self).wf(),
            final(self).spec_permit() is None,
            final(self).spec_channel() is None,
            final(self).spec_phase() == if old(self).spec_phase() == Phase::Rejected {
                Phase::Rejected
            } else {
                Phase::Closed
            },
            final(gw).limiter == old(gw).limiter,
            final(gw).idle_timeout_ms == old(gw).idle_timeout_ms,
            final(gw).max_session_ms == old(gw).max_session_ms,
            final(gw).gate.capacity() == old(gw).gate.capacity(),
            r == (old(self).spec_permit() matches Some(p) && old(gw).gate.holds(&p)),
            r ==> final(gw).gate.active() + 1 == old(gw).gate.active(),
            r ==> final(gw).gate.active() < final(gw).gate.capacity(),
            !r ==> final(gw).gate == old(gw).gate,
    {
        proof {
            crate::gate::lemma_active_within_capacity(&gw.gate);
        }
        let held = self.permit.take();
        let freed = match held {
            Some(p) => gw.gate.release(p),
            None => false,
        };
        self.channel = None;
        if self.phase != Phase::Rejected {
            self.phase = Phase::Closed;
        }
        freed
    }
}

} // verus!
