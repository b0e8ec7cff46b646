use ruad::config::{LogLevel, Options};
use ruad::event::{Event, EventQueue};
use ruad::event_loop::{classify, Directive, LoopState, Phase};
use ruad::status::ServiceState;

fn options(interval_ms: u64, level: LogLevel, at_startup: bool) -> Options {
    Options {
        log_level: level,
        reg_cmd: String::from("reg"),
        exec_after_logon: None,
        exec_at_interval: interval_ms,
        exec_at_startup: at_startup,
    }
}

#[test]
fn startup_flag_enqueues_immediate_execution() {
    // Scenario: startup flag set, interval five seconds. On start, one
    // ExecutePayload is enqueued at once, ahead of the first timer firing.
    let opts = options(5_000, LogLevel::Info, true);
    let (state, actions) = LoopState::start(&opts);

    assert_eq!(state.phase, Phase::Running);
    assert_eq!(state.interval_ms, 5_000);
    assert_eq!(actions.report.state, ServiceState::Running);
    assert!(actions.report.accepts_stop);
    assert!(actions.report.accepts_session_change);
    assert!(actions.enqueue_startup);
    assert_eq!(actions.timer_period_ms, 5_000);

    let mut q = EventQueue::new();
    if actions.enqueue_startup {
        q.send(Event::ExecutePayload);
    }
    // The startup execution is already queued before any timer event exists,
    // so it is the first thing the loop consumes.
    assert_eq!(q.len(), 1);
    assert_eq!(classify(q.recv()), Directive::RunCycle);
}

#[test]
fn no_startup_execution_without_the_flag() {
    let opts = options(5_000, LogLevel::Info, false);
    let (_, actions) = LoopState::start(&opts);
    assert!(!actions.enqueue_startup);
    assert_eq!(actions.timer_period_ms, 5_000);
}

#[test]
fn executor_failure_warns_and_the_loop_continues() {
    // Scenario: the action executor fails. The loop logs a warning and the
    // next timer firing runs another cycle — no crash, no suppression.
    let opts = options(5_000, LogLevel::Info, false);
    let (mut state, _) = LoopState::start(&opts);

    let fresh = options(5_000, LogLevel::Info, false);
    let actions = state.finish_cycle(&fresh, false);
    assert!(actions.warn);
    assert_eq!(state.phase, Phase::Running);

    // Next timer firing: the event is classified as another cycle and runs.
    assert_eq!(classify(Some(Event::ExecutePayload)), Directive::RunCycle);
    let again = state.finish_cycle(&fresh, true);
    assert!(!again.warn);
    assert_eq!(state.phase, Phase::Running);
}

#[test]
fn interval_change_retunes_the_timer_in_place() {
    // Scenario: the interval changes from five to thirty seconds while the
    // loop is idle. The cycle that observes it retunes the repeating timer,
    // so the next firing comes thirty seconds from the change, not five.
    let opts = options(5_000, LogLevel::Info, false);
    let (mut state, _) = LoopState::start(&opts);

    let fresh = options(30_000, LogLevel::Info, false);
    let actions = state.finish_cycle(&fresh, true);
    assert_eq!(actions.change_period, Some(30_000));
    assert_eq!(state.interval_ms, 30_000);
    assert_eq!(state.phase, Phase::Running);

    // An unchanged interval leaves the timer alone.
    let same = options(30_000, LogLevel::Info, false);
    let actions = state.finish_cycle(&same, true);
    assert_eq!(actions.change_period, None);
    assert_eq!(state.interval_ms, 30_000);
}

#[test]
fn log_level_change_redirects_logging() {
    let opts = options(5_000, LogLevel::Info, false);
    let (mut state, _) = LoopState::start(&opts);

    let fresh = options(5_000, LogLevel::Trace, false);
    let actions = state.finish_cycle(&fresh, true);
    assert_eq!(actions.redirect_log, Some(LogLevel::Trace));
    assert_eq!(state.log_level, LogLevel::Trace);

    let same = options(5_000, LogLevel::Trace, false);
    let actions = state.finish_cycle(&same, true);
    assert_eq!(actions.redirect_log, None);
}

#[test]
fn stop_queued_during_execution_is_seen_after_it() {
    // Scenario: StopService arrives while an ExecutePayload is mid-execution.
    // The loop finishes the current cycle, then observes the stop and
    // reaches the stopped state with the accepted controls cleared.
    let opts = options(5_000, LogLevel::Info, false);
    let (mut state, _) = LoopState::start(&opts);

    let mut q = EventQueue::new();
    q.send(Event::ExecutePayload);

    assert_eq!(classify(q.recv()), Directive::RunCycle);
    // Mid-execution, the stop request lands on the queue.
    q.send(Event::StopService);
    // The in-flight cycle still completes.
    let fresh = options(5_000, LogLevel::Info, false);
    let _ = state.finish_cycle(&fresh, true);
    assert_eq!(state.phase, Phase::Running);

    // Only then is the stop observed.
    assert_eq!(classify(q.recv()), Directive::Shutdown);
    let report = state.shutdown();
    assert_eq!(state.phase, Phase::Stopped);
    assert_eq!(report.state, ServiceState::Stopped);
    assert!(!report.accepts_stop);
    assert!(!report.accepts_session_change);
    assert_eq!(report.exit_code, 0);
}

#[test]
fn channel_closure_shuts_the_loop_down() {
    // Closure of the channel is a shutdown signal, exactly like StopService.
    assert_eq!(classify(None), Directive::Shutdown);
    assert_eq!(classify(Some(Event::StopService)), Directive::Shutdown);
}
