//! The control handler: the single entry point the service manager invokes
//! with control requests, on its own thread.
//!
//! The handler must return quickly and never panic, so it only translates
//! each request into driver actions — a channel send or a one-shot timer —
//! and keeps the one slot for a pending post-logon schedule. Any failure
//! while handling a request is reported to the service manager as handled
//! without error, never as a crash of the callback.

use vstd::prelude::*;

use crate::config::Options;
use crate::event::Event;

verus! {

/// Why a session-logon control reads the configuration afresh.
#[derive(Clone, Copy, Debug, PartialEq, Eq, Structural)]
pub enum SessionChangeReason {
    /// A user logged on; a post-logon execution may be due.
    SessionLogon,
    /// Any other session transition; acknowledged without action.
    Other,
}

/// A control request delivered by the service manager.
#[derive(Clone, Copy, Debug, PartialEq, Eq, Structural)]
pub enum Control {
    /// Status handshake every service must acknowledge.
    Interrogate,
    /// A session changed, with the reason.
    SessionChange(SessionChangeReason),
    /// Stop the service.
    Stop,
    /// Any control kind this service does not handle.
    Other,
}

/// What the handler reports back to the service manager.
#[derive(Clone, Copy, Debug, PartialEq, Eq, Structural)]
pub enum HandlerResult {
    /// Handled, or failed in a way the callback absorbs.
    NoError,
    /// Not handled; the service manager falls back to default behaviour.
    NotImplemented,
}

/// Why a control request could not be carried out.
#[derive(Clone, Copy, Debug, PartialEq, Eq, Structural)]
pub enum HandleError {
    /// The configuration snapshot could not be read.
    ConfigUnreadable,
}

/// A pending one-shot post-logon schedule, identified by the delay it was
/// armed with, in milliseconds.
#[derive(Clone, Copy, Debug, PartialEq, Eq, Structural)]
pub struct OneShot {
    pub delay_ms: u64,
}

/// What one control request tells the driver to do, beside the result it
/// reports to the service manager.
#[derive(Clone, Copy, Debug, PartialEq, Eq, Structural)]
pub struct ControlOutcome {
    /// Whether the request was handled.
    pub handled: bool,
    /// Enqueue this event on the channel.
    pub send: Option<Event>,
    /// Arm a one-shot timer for this many milliseconds, whose firing
    /// enqueues `ExecutePayload`.
    pub schedule_oneshot: Option<u64>,
    /// The newly armed one-shot replaces a schedule that was still pending;
    /// the driver drops the old timer handle, cancelling it.
    pub cancels_previous: bool,
}

/// An outcome that instructs the driver to do nothing.
pub open spec fn no_actions(handled: bool) -> ControlOutcome {
    ControlOutcome { handled, send: None, schedule_oneshot: None, cancels_previous: false }
}

/// The control handler's own state: the one slot for a pending post-logon
/// one-shot. Holding it as a single optional value keeps at most one such
/// schedule pending at any time; arming a new one supersedes the old.
#[derive(Clone, Copy, Debug, PartialEq, Eq, Structural)]
pub struct ControlHandler {
    pub pending_oneshot: Option<OneShot>,
}

/// The handler state after one control request. Only a session-logon with a
/// configured post-logon delay changes it: the new one-shot takes the slot.
/// `config` is the snapshot freshly read for the request, `None` where the
/// read failed.
pub open spec fn handler_state_spec(
    h: ControlHandler,
    control: Control,
    config: Option<Options>,
) -> ControlHandler {
    match control {
        Control::SessionChange(reason) => match config {
            Some(options) => if reason == SessionChangeReason::SessionLogon
                && options.exec_after_logon is Some {
                ControlHandler {
                    pending_oneshot: Some(OneShot { delay_ms: options.exec_after_logon.unwrap() }),
                }
            } else {
                h
            },
            None => h,
        },
        _ => h,
    }
}

/// The result and actions of one control request:
/// - `Interrogate` is acknowledged with no side effect;
/// - `SessionChange` needs the fresh snapshot (a failed read is the one
///   error); on logon with a configured delay it arms the one-shot,
///   cancelling a still-pending one; other reasons are acknowledged without
///   action;
/// - `Stop` enqueues `StopService`;
/// - anything else is reported unhandled.
pub open spec fn handler_outcome_spec(
    h: ControlHandler,
    control: Control,
    config: Option<Options>,
) -> Result<ControlOutcome, HandleError> {
    match control {
        Control::Interrogate => Ok(no_actions(true)),
        Control::SessionChange(reason) => match config {
            Some(options) => if reason == SessionChangeReason::SessionLogon
                && options.exec_after_logon is Some {
                Ok(
                    ControlOutcome {
                        handled: true,
                        send: None,
                        schedule_oneshot: Some(options.exec_after_logon.unwrap()),
                        cancels_previous: h.pending_oneshot is Some,
                    },
                )
            } else {
                Ok(no_actions(true))
            },
            None => Err(HandleError::ConfigUnreadable),
        },
        Control::Stop => Ok(
            ControlOutcome {
                handled: true,
                send: Some(Event::StopService),
                schedule_oneshot: None,
                cancels_previous: false,
            },
        ),
        Control::Other => Ok(no_actions(false)),
    }
}

/// What the handler reports to the service manager: handled requests report
/// no error, unhandled ones report not-implemented, and a failure while
/// handling is absorbed — logged by the driver — and reported as no error,
/// never as a crash of the callback thread.
pub open spec fn accept_result_spec(
    h: ControlHandler,
    control: Control,
    config: Option<Options>,
) -> HandlerResult {
    match handler_outcome_spec(h, control, config) {
        Ok(outcome) => if outcome.handled {
            HandlerResult::NoError
        } else {
            HandlerResult::NotImplemented
        },
        Err(_) => HandlerResult::NoError,
    }
}

impl ControlHandler {
    /// A fresh handler with no post-logon schedule pending.
    pub fn new() -> (h: ControlHandler)
        ensures
            h == (ControlHandler { pending_oneshot: None::<OneShot> }),
    {
        ControlHandler { pending_oneshot: None }
    }

    /// Carries out one control request against the freshly read snapshot
    /// (`None` where the read failed), returning the driver actions or the
    /// error.
    pub fn try_handle(&mut self, control: &Control, config: &Option<Options>) -> (r: Result<
        ControlOutcome,
        HandleError,
    >)
        ensures
            *final(self) == handler_state_spec(*old(self), *control, *config),
            r == handler_outcome_spec(*old(self), *control, *config),
    {
        match control {
            Control::Interrogate => Ok(
                ControlOutcome {
                    handled: true,
                    send: None,
                    schedule_oneshot: None,
                    cancels_previous: false,
                },
            ),
            Control::SessionChange(reason) => match config {
                Some(options) => {
                    if *reason == SessionChangeReason::SessionLogon {
                        match options.exec_after_logon {
                            Some(delay_ms) => {
                                let cancels_previous = self.pending_oneshot.is_some();
                                self.pending_oneshot = Some(OneShot { delay_ms });
                                Ok(
                                    ControlOutcome {
                                        handled: true,
                                        send: None,
                                        schedule_oneshot: Some(delay_ms),
                                        cancels_previous,
                                    },
                                )
                            },
                            None => Ok(
                                ControlOutcome {
                                    handled: true,
                                    send: None,
                                    schedule_oneshot: None,
                                    cancels_previous: false,
                                },
                            ),
                        }
                    } else {
                        Ok(
                            ControlOutcome {
                                handled: true,
                                send: None,
                                schedule_oneshot: None,
                                cancels_previous: false,
                            },
                        )
                    }
                },
                None => Err(HandleError::ConfigUnreadable),
            },
            Control::Stop => Ok(
                ControlOutcome {
                    handled: true,
                    send: Some(Event::StopService),
                    schedule_oneshot: None,
                    cancels_previous: false,
                },
            ),
            Control::Other => Ok(
                ControlOutcome {
                    handled: false,
                    send: None,
                    schedule_oneshot: None,
                    cancels_previous: false,
                },
            ),
        }
    }

    /// The callback entry: carries the request out and maps the result to
    /// what the service manager is told. The actions come back beside it;
    /// on an error there are none to perform.
    pub fn accept(&mut self, control: &Control, config: &Option<Options>) -> (r: (
        HandlerResult,
        ControlOutcome,
    ))
        ensures
            *final(self) == handler_state_spec(*old(self), *control, *config),
            r.0 == accept_result_spec(*old(self), *control, *config),
            handler_outcome_spec(*old(self), *control, *config) matches Ok(outcome) ==> r.1
                == outcome,
            handler_outcome_spec(*old(self), *control, *config) is Err ==> r.1 == no_actions(
                true,
            ),
    {
        match self.try_handle(control, config) {
            Ok(outcome) => {
                if outcome.handled {
                    (HandlerResult::NoError, outcome)
                } else {
                    (HandlerResult::NotImplemented, outcome)
                }
            },
            Err(_) => (
                HandlerResult::NoError,
                ControlOutcome {
                    handled: true,
                    send: None,
                    schedule_oneshot: None,
                    cancels_previous: false,
                },
            ),
        }
    }
}

/// Law: an `Interrogate` request is idempotent — it never changes the handler
/// state, instructs no action, and is always reported handled without error.
pub proof fn lemma_interrogate_idempotent(h: ControlHandler, config: Option<Options>)
    ensures
        handler_state_spec(h, Control::Interrogate, config) == h,
        handler_outcome_spec(h, Control::Interrogate, config) == Ok::<
            ControlOutcome,
            HandleError,
        >(no_actions(true)),
        accept_result_spec(h, Control::Interrogate, config) == HandlerResult::NoError,
{
}

/// Law: at most one post-logon one-shot is pending at a time. A second
/// session-logon before the first one-shot fires supersedes it: afterwards
/// exactly the newer schedule is pending, and the handler instructs the
/// driver to cancel the previous one.
pub proof fn lemma_second_logon_supersedes(
    h: ControlHandler,
    first: Options,
    second: Options,
    d1: u64,
    d2: u64,
)
    requires
        first.exec_after_logon == Some(d1),
        second.exec_after_logon == Some(d2),
    ensures
        ({
            let logon = Control::SessionChange(SessionChangeReason::SessionLogon);
            let h1 = handler_state_spec(h, logon, Some(first));
            let h2 = handler_state_spec(h1, logon, Some(second));
            h1.pending_oneshot == Some(OneShot { delay_ms: d1 }) && h2.pending_oneshot == Some(
                OneShot { delay_ms: d2 },
            ) && handler_outcome_spec(h1, logon, Some(second)) == Ok::<
                ControlOutcome,
                HandleError,
            >(
                (ControlOutcome {
                    handled: true,
                    send: None,
                    schedule_oneshot: Some(d2),
                    cancels_previous: true,
                }),
            )
        }),
{
}

} // verus!
