//! Event loop and control-event state machine of a scheduled background
//! service.
//!
//! The service runs one long-lived worker loop that reconciles three
//! asynchronous event sources — a repeating timer, a one-shot post-logon
//! timer, and operating-system control requests — into a single FIFO event
//! stream, and hot-reloads its schedule and logging level between payload
//! executions. The modules here hold the verified decision logic: the
//! configuration snapshot, the event queue model, the status reports, the
//! control handler, and the loop state machine. A driver around the library
//! performs the actual I/O (timers, the channel, the payload command, status
//! registration) as the decisions instruct.

pub mod config;
pub mod control;
pub mod event;
pub mod event_loop;
pub mod status;
