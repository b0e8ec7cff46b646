//! The worker loop state machine.
//!
//! The loop owns the repeating execution timer and the reported status. It
//! blocks on the event channel; every state change happens on the consuming
//! thread, after a receive, so no lock guards the schedule state. The
//! functions here make the decisions; a driver performs what they instruct:
//! report status, start or retune the repeating timer, re-read the
//! configuration, run the payload action, redirect logging.

use vstd::prelude::*;

use crate::config::{LogLevel, Options};
use crate::event::Event;
use crate::status::{running_report, stopped_report, StatusReport};

verus! {

/// Whether the loop is still consuming events.
#[derive(Clone, Copy, Debug, PartialEq, Eq, Structural)]
pub enum Phase {
    Running,
    Stopped,
}

/// Loop-local scheduling state: the period the repeating timer is currently
/// held to and the logging level the sink is currently held to.
#[derive(Clone, Copy, Debug, PartialEq, Eq, Structural)]
pub struct LoopState {
    pub phase: Phase,
    /// Active repeating-timer period, in milliseconds; always positive.
    pub interval_ms: u64,
    /// Active logging verbosity.
    pub log_level: LogLevel,
}

/// What the driver must do right after the loop enters the running state.
#[derive(Clone, Copy, Debug, PartialEq, Eq, Structural)]
pub struct StartActions {
    /// Report this status to the service manager promptly, before blocking.
    pub report: StatusReport,
    /// Whether one `ExecutePayload` is enqueued immediately, ahead of any
    /// timer-driven event.
    pub enqueue_startup: bool,
    /// Start the repeating timer at this period, in milliseconds.
    pub timer_period_ms: u64,
}

/// What the driver must do after one `ExecutePayload` cycle.
#[derive(Clone, Copy, Debug, PartialEq, Eq)]
pub struct CycleActions {
    /// Log a warning: the action executor reported failure. The loop
    /// continues either way.
    pub warn: bool,
    /// Retune the repeating timer to this period in place — no timer
    /// recreation, no loss of queued events. `None` when the period is
    /// unchanged.
    pub change_period: Option<u64>,
    /// Redirect the logging sink to this level. `None` when unchanged.
    pub redirect_log: Option<LogLevel>,
}

/// What a received event tells the loop to do next.
#[derive(Clone, Copy, Debug, PartialEq, Eq, Structural)]
pub enum Directive {
    /// Run one payload cycle: re-read the configuration, apply the payload,
    /// then reconcile schedule and logging with the fresh snapshot.
    RunCycle,
    /// Leave the loop and make the terminal status report.
    Shutdown,
}

/// How the loop classifies what the channel handed back. `None` stands for
/// channel closure: the producer side is gone, which is itself a shutdown
/// signal, treated exactly like `StopService`.
pub open spec fn classify_spec(received: Option<Event>) -> Directive {
    match received {
        Some(Event::ExecutePayload) => Directive::RunCycle,
        Some(Event::StopService) => Directive::Shutdown,
        None => Directive::Shutdown,
    }
}

/// Classifies one receive from the event channel.
pub fn classify(received: Option<Event>) -> (d: Directive)
    ensures
        d == classify_spec(received),
{
    match received {
        Some(Event::ExecutePayload) => Directive::RunCycle,
        Some(Event::StopService) => Directive::Shutdown,
        None => Directive::Shutdown,
    }
}

/// The loop state after one payload cycle observed the fresh snapshot: still
/// running, holding the snapshot's interval and level.
pub open spec fn cycle_state_spec(s: LoopState, fresh: Options) -> LoopState {
    LoopState { phase: Phase::Running, interval_ms: fresh.exec_at_interval, log_level: fresh.log_level }
}

/// The driver actions after one payload cycle: warn exactly on executor
/// failure, retune the timer exactly when the fresh interval differs, and
/// redirect logging exactly when the fresh level differs.
pub open spec fn cycle_actions_spec(s: LoopState, fresh: Options, executor_ok: bool) -> CycleActions {
    CycleActions {
        warn: !executor_ok,
        change_period: if fresh.exec_at_interval != s.interval_ms {
            Some(fresh.exec_at_interval)
        } else {
            None
        },
        redirect_log: if fresh.log_level != s.log_level {
            Some(fresh.log_level)
        } else {
            None
        },
    }
}

/// The same state with the phase forced to stopped.
pub open spec fn stopped_state(s: LoopState) -> LoopState {
    LoopState { phase: Phase::Stopped, ..s }
}

impl LoopState {
    /// Positive interval, as the configuration guarantees of every snapshot.
    pub open spec fn wf(self) -> bool {
        self.interval_ms > 0
    }

    /// Enters the running state from the snapshot read at startup.
    ///
    /// The actions say what the driver owes in order: report running status
    /// promptly, enqueue one immediate execution exactly when the startup
    /// flag is set, and start the repeating timer at the snapshot's interval.
    pub fn start(options: &Options) -> (r: (LoopState, StartActions))
        requires
            options.wf(),
        ensures
            r.0 == (LoopState {
                phase: Phase::Running,
                interval_ms: options.exec_at_interval,
                log_level: options.log_level,
            }),
            r.0.wf(),
            r.1 == (StartActions {
                report: running_report(),
                enqueue_startup: options.exec_at_startup,
                timer_period_ms: options.exec_at_interval,
            }),
    {
        let state = LoopState {
            phase: Phase::Running,
            interval_ms: options.exec_at_interval,
            log_level: options.log_level,
        };
        let actions = StartActions {
            report: StatusReport::running(),
            enqueue_startup: options.exec_at_startup,
            timer_period_ms: options.exec_at_interval,
        };
        (state, actions)
    }

    /// Ends one payload cycle against the freshly re-read snapshot.
    ///
    /// The loop stays running whatever the executor reported: failure is
    /// logged, never fatal. The active interval and level become the fresh
    /// snapshot's, and the actions carry the in-place timer retune and the
    /// logging redirect exactly where those differ from the old state.
    pub fn finish_cycle(&mut self, fresh: &Options, executor_ok: bool) -> (a: CycleActions)
        requires
            old(self).phase == Phase::Running,
            old(self).wf(),
            fresh.wf(),
        ensures
            *final(self) == cycle_state_spec(*old(self), *fresh),
            final(self).phase == Phase::Running,
            final(self).wf(),
            a == cycle_actions_spec(*old(self), *fresh, executor_ok),
    {
        let change_period: Option<u64> = if fresh.exec_at_interval != self.interval_ms {
            Some(fresh.exec_at_interval)
        } else {
            None
        };
        let redirect_log: Option<LogLevel> = if fresh.log_level != self.log_level {
            Some(fresh.log_level)
        } else {
            None
        };
        self.interval_ms = fresh.exec_at_interval;
        self.log_level = fresh.log_level;
        CycleActions { warn: !executor_ok, change_period, redirect_log }
    }

    /// Leaves the loop: the phase becomes stopped and the returned report —
    /// stopped, accepted controls cleared — must be announced to the service
    /// manager. No further event is consumed afterwards.
    pub fn shutdown(&mut self) -> (r: StatusReport)
        ensures
            *final(self) == stopped_state(*old(self)),
            r == stopped_report(),
    {
        self.phase = Phase::Stopped;
        StatusReport::stopped()
    }
}

/// What the next blocking receive hands the loop: the oldest queued event,
/// or `None` — channel closure — once the queue is exhausted.
pub open spec fn head_event(events: Seq<Event>) -> Option<Event> {
    if events.len() == 0 {
        None
    } else {
        Some(events[0])
    }
}

/// The whole run of the loop over a queue of events, as one mathematical
/// function: events are consumed strictly in queue order, each receive
/// classified exactly as the loop classifies it; every `ExecutePayload` runs
/// one cycle against the next fresh snapshot; the first `StopService` — or
/// the end of the queue, standing for channel closure — stops the loop.
/// Returns the final state and the snapshots consumed, one per cycle run, in
/// order.
pub open spec fn run_spec(s: LoopState, events: Seq<Event>, configs: Seq<Options>) -> (
    LoopState,
    Seq<Options>,
)
    decreases events.len(),
{
    if classify_spec(head_event(events)) == Directive::Shutdown {
        (stopped_state(s), Seq::<Options>::empty())
    } else {
        let rest = run_spec(cycle_state_spec(s, configs[0]), events.skip(1), configs.skip(1));
        (rest.0, seq![configs[0]] + rest.1)
    }
}

/// How many `ExecutePayload` events stand ahead of the first `StopService`.
pub open spec fn execs_before_stop(events: Seq<Event>) -> nat
    decreases events.len(),
{
    if classify_spec(head_event(events)) == Directive::Shutdown {
        0
    } else {
        1 + execs_before_stop(events.skip(1))
    }
}

/// Law: the loop always reaches the stopped phase — on the first
/// `StopService` or on channel closure — and until then processes the queue
/// in FIFO order: it runs exactly one cycle per `ExecutePayload` queued ahead
/// of the first `StopService`, and the cycle at position `i` observes the
/// `i`-th fresh snapshot.
pub proof fn lemma_fifo_run_stops(s: LoopState, events: Seq<Event>, configs: Seq<Options>)
    requires
        configs.len() >= execs_before_stop(events),
    ensures
        run_spec(s, events, configs).0.phase == Phase::Stopped,
        run_spec(s, events, configs).1.len() == execs_before_stop(events),
        forall|i: int|
            0 <= i < run_spec(s, events, configs).1.len() ==> run_spec(s, events, configs).1[i]
                == configs[i],
    decreases events.len(),
{
    if classify_spec(head_event(events)) == Directive::Shutdown {
    } else {
        lemma_fifo_run_stops(cycle_state_spec(s, configs[0]), events.skip(1), configs.skip(1));
        let rest = run_spec(cycle_state_spec(s, configs[0]), events.skip(1), configs.skip(1));
        let trace = run_spec(s, events, configs).1;
        assert(trace == seq![configs[0]] + rest.1);
        assert forall|i: int| 0 <= i < trace.len() implies trace[i] == configs[i] by {
            if i == 0 {
                assert(trace[0] == configs[0]);
            } else {
                assert(trace[i] == rest.1[i - 1]);
                assert(rest.1[i - 1] == configs.skip(1)[i - 1]);
                assert(configs.skip(1)[i - 1] == configs[i]);
            }
        }
    }
}

/// Law: once the loop observes a snapshot whose interval is `I`, the active
/// repeating period is `I` and the loop is still running — the change never
/// restarts the loop, so no queued event is lost; the driver is told to
/// retune the timer in place exactly when the period actually changed.
pub proof fn lemma_interval_takes_effect(s: LoopState, fresh: Options, executor_ok: bool)
    requires
        s.phase == Phase::Running,
        fresh.wf(),
    ensures
        cycle_state_spec(s, fresh).interval_ms == fresh.exec_at_interval,
        cycle_state_spec(s, fresh).phase == Phase::Running,
        cycle_actions_spec(s, fresh, executor_ok).change_period == (if fresh.exec_at_interval
            != s.interval_ms {
            Some(fresh.exec_at_interval)
        } else {
            None::<u64>
        }),
{
}

} // verus!

