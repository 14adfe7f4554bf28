//! The per-session relay monitor: timer checks and the three stop paths.
use vstd::prelude::*;

verus! {

/// Time elapsed from `since` to `now`, never negative.
pub open spec fn elapsed(since: u64, now: u64) -> nat {
    if now >= since {
        (now - since) as nat
    } else {
        0
    }
}

/// A session is over when it has been idle for longer than `idle_timeout`
/// or has run for longer than `max_duration` (all in milliseconds).
pub open spec fn timed_out(
    started_at: u64,
    last_activity: u64,
    now: u64,
    idle_timeout: u64,
    max_duration: u64,
) -> bool {
    elapsed(last_activity, now) > idle_timeout || elapsed(started_at, now) > max_duration
}

/// What became of one bounded read of the child's standard output.
#[derive(PartialEq, Eq, Structural, Clone, Copy, Debug)]
pub enum ReadOutcome {
    /// The child closed its output.
    Closed,
    /// This many bytes were read.
    Data(usize),
    /// The wait ran out with nothing to read.
    Nothing,
    /// The read failed.
    Failed,
}

/// What the relay task does next.
#[derive(PartialEq, Eq, Structural, Clone, Copy, Debug)]
pub enum MonitorAction {
    /// Read the child's output, with a bounded wait.
    Read,
    /// Send this many bytes, just read, to the channel.
    Forward(usize),
    /// Signal end-of-stream, close the channel and stop.
    EndSession,
    /// Stop without further signals.
    Stop,
}

/// One input to the monitor.
pub enum MonitorEvent {
    Timers { last_activity: u64, now: u64 },
    ReadDone(ReadOutcome),
    SendDone(bool),
}

/// The decision state of one session's relay task.
#[derive(PartialEq, Eq, Structural, Clone, Copy, Debug)]
pub struct SessionMonitor {
    pub started_at: u64,
    pub idle_timeout: u64,
    pub max_duration: u64,
    pub finished: bool,
}

/// The monitor's answer to one event.
pub open spec fn step(m: SessionMonitor, e: MonitorEvent) -> (SessionMonitor, MonitorAction) {
    if m.finished {
        (m, MonitorAction::Stop)
    } else {
        match e {
            MonitorEvent::Timers { last_activity, now } => {
                if timed_out(m.started_at, last_activity, now, m.idle_timeout, m.max_duration) {
                    (SessionMonitor { finished: true, ..m }, MonitorAction::EndSession)
                } else {
                    (m, MonitorAction::Read)
                }
            },
            MonitorEvent::ReadDone(o) => match o {
                ReadOutcome::Data(n) => (m, MonitorAction::Forward(n)),
                ReadOutcome::Nothing => (m, MonitorAction::Read),
                _ => (SessionMonitor { finished: true, ..m }, MonitorAction::EndSession),
            },
            MonitorEvent::SendDone(delivered) => {
                if delivered {
                    (m, MonitorAction::Read)
                } else {
                    (SessionMonitor { finished: true, ..m }, MonitorAction::Stop)
                }
            },
        }
    }
}

/// How many times end-of-stream is signalled over a series of events.
pub open spec fn end_signals(m: SessionMonitor, events: Seq<MonitorEvent>) -> nat
    decreases events.len(),
{
    if events.len() == 0 {
        0
    } else {
        let (m2, a) = step(m, events[0]);
        end_signals(m2, events.drop_first()) + if a == MonitorAction::EndSession {
            1nat
        } else {
            0nat
        }
    }
}

proof fn lemma_finished_is_silent(m: SessionMonitor, events: Seq<MonitorEvent>)
    requires
        m.finished,
    ensures
        end_signals(m, events) == 0,
    decreases events.len(),
{
    if events.len() > 0 {
        lemma_finished_is_silent(m, events.drop_first());
    }
}

/// End-of-stream and close are signalled at most once over the whole life of
/// a session, whatever events reach its monitor; and a monitor that has
/// stopped signals them no more.
pub proof fn lemma_end_signalled_at_most_once(m: SessionMonitor, events: Seq<MonitorEvent>)
    ensures
        end_signals(m, events) <= 1,
        m.finished ==> end_signals(m, events) == 0,
    decreases events.len(),
{
    if m.finished {
        lemma_finished_is_silent(m, events);
    } else if events.len() > 0 {
        let (m2, a) = step(m, events[0]);
        if a == MonitorAction::EndSession {
            lemma_finished_is_silent(m2, events.drop_first());
        } else {
            lemma_end_signalled_at_most_once(m2, events.drop_first());
        }
    }
}

/// An unfinished session whose idle time or age is past its limit is ended at
/// the next timer check, however recently its child wrote output.
pub proof fn lemma_timeout_ends_session(m: SessionMonitor, last_activity: u64, now: u64)
    requires
        !m.finished,
        elapsed(last_activity, now) > m.idle_timeout || elapsed(m.started_at, now) > m.max_duration,
    ensures
        step(m, MonitorEvent::Timers { last_activity, now }).1 == MonitorAction::EndSession,
        step(m, MonitorEvent::Timers { last_activity, now }).0.finished,
{
}

/// A session whose timer check finds it past its idle or duration limit
/// signals end-of-stream and close exactly once, whatever events follow.
pub proof fn lemma_timeout_signals_once(
    m: SessionMonitor,
    last_activity: u64,
    now: u64,
    rest: Seq<MonitorEvent>,
)
    requires
        !m.finished,
        timed_out(m.started_at, last_activity, now, m.idle_timeout, m.max_duration),
    ensures
        end_signals(m, seq![MonitorEvent::Timers { last_activity, now }] + rest) == 1,
{
    let events = seq![MonitorEvent::Timers { last_activity, now }] + rest;
    assert(events.drop_first() =~= rest);
    lemma_finished_is_silent(step(m, events[0]).0, rest);
}

impl SessionMonitor {
    /// A monitor for a session that started at `started_at`.
    pub fn new(started_at: u64, idle_timeout: u64, max_duration: u64) -> (r: SessionMonitor)
        ensures
            r == (SessionMonitor { started_at, idle_timeout, max_duration, finished: false }),
    {
        SessionMonitor { started_at, idle_timeout, max_duration, finished: false }
    }

    /// Whether the session is past its idle or duration limit at `now`.
    pub fn is_expired(&self, last_activity: u64, now: u64) -> (r: bool)
        ensures
            r == timed_out(self.started_at, last_activity, now, self.idle_timeout, self.max_duration),
    {
        now.saturating_sub(last_activity) > self.idle_timeout || now.saturating_sub(
            self.started_at,
        ) > self.max_duration
    }

    /// The timer check at the top of each relay round.
    pub fn check_timers(&mut self, last_activity: u64, now: u64) -> (r: MonitorAction)
        ensures
            (*final(self), r) == step(*old(self), MonitorEvent::Timers { last_activity, now }),
    {
        if self.finished {
            MonitorAction::Stop
        } else if self.is_expired(last_activity, now) {
            self.finished = true;
            MonitorAction::EndSession
        } else {
            MonitorAction::Read
        }
    }

    /// The decision after a read of the child's output.
    pub fn after_read(&mut self, outcome: ReadOutcome) -> (r: MonitorAction)
        ensures
            (*final(self), r) == step(*old(self), MonitorEvent::ReadDone(outcome)),
    {
        if self.finished {
            return MonitorAction::Stop;
        }
        match outcome {
            ReadOutcome::Data(n) => MonitorAction::Forward(n),
            ReadOutcome::Nothing => MonitorAction::Read,
            _ => {
                self.finished = true;
                MonitorAction::EndSession
            },
        }
    }

    /// The decision after forwarding output to the channel; a failed send
    /// means the peer is gone.
    pub fn after_send(&mut self, delivered: bool) -> (r: MonitorAction)
        ensures
            (*final(self), r) == step(*old(self), MonitorEvent::SendDone(delivered)),
    {
        if self.finished {
            MonitorAction::Stop
        } else if delivered {
            MonitorAction::Read
        } else {
            self.finished = true;
            MonitorAction::Stop
        }
    }
}

} // verus!
