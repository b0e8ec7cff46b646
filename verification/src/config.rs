//! The configuration snapshot: an immutable value object read fresh from
//! storage at loop start and before every payload execution.

use vstd::prelude::*;

verus! {

/// Severity threshold for the logging sink, ordered from silent to most
/// verbose.
#[derive(Clone, Copy, Debug, PartialEq, Eq, Structural)]
pub enum LogLevel {
    Off,
    Error,
    Warn,
    Info,
    Debug,
    Trace,
}

/// Why freshly read configuration fields were rejected.
#[derive(Clone, Copy, Debug, PartialEq, Eq, Structural)]
pub enum ConfigError {
    /// The stored document carries a version this build does not understand.
    UnknownVersion,
    /// The repeating-execution interval must be positive.
    ZeroInterval,
}

/// The configuration document version this build accepts.
pub const SUPPORTED_CONFIG_VERSION: u8 = 1;

/// An immutable configuration snapshot. Durations are in milliseconds.
/// A snapshot is never mutated: a new one is obtained by re-reading storage.
#[derive(Clone, Debug, PartialEq, Eq)]
pub struct Options {
    /// Logging verbosity the sink should be held to.
    pub log_level: LogLevel,
    /// Command used to apply the payload.
    pub reg_cmd: String,
    /// Delay before a post-logon execution, if one is configured.
    pub exec_after_logon: Option<u64>,
    /// Period of the repeating execution timer; always positive.
    pub exec_at_interval: u64,
    /// Whether one execution is enqueued immediately at loop start.
    pub exec_at_startup: bool,
}

impl Options {
    /// A snapshot is well formed when its repeating interval is positive.
    pub open spec fn wf(self) -> bool {
        self.exec_at_interval > 0
    }

    /// Validates freshly parsed configuration fields into a snapshot.
    ///
    /// Rejects any document version other than the supported one, and a
    /// repeating interval of zero; otherwise returns the snapshot built from
    /// exactly the given fields.
    pub fn from_parts(
        version: u8,
        log_level: LogLevel,
        reg_cmd: String,
        exec_after_logon: Option<u64>,
        exec_at_interval: u64,
        exec_at_startup: bool,
    ) -> (r: Result<Options, ConfigError>)
        ensures
            version != SUPPORTED_CONFIG_VERSION ==> r == Err::<Options, ConfigError>(
                ConfigError::UnknownVersion,
            ),
            version == SUPPORTED_CONFIG_VERSION && exec_at_interval == 0 ==> r == Err::<
                Options,
                ConfigError,
            >(ConfigError::ZeroInterval),
            version == SUPPORTED_CONFIG_VERSION && exec_at_interval > 0 ==> r == Ok::<
                Options,
                ConfigError,
            >(
                (Options {
                    log_level,
                    reg_cmd,
                    exec_after_logon,
                    exec_at_interval,
                    exec_at_startup,
                }),
            ),
            r is Ok ==> r.unwrap().wf(),
    {
        if version != SUPPORTED_CONFIG_VERSION {
            Err(ConfigError::UnknownVersion)
        } else if exec_at_interval == 0 {
            Err(ConfigError::ZeroInterval)
        } else {
            Ok(
                Options {
                    log_level,
                    reg_cmd,
                    exec_after_logon,
                    exec_at_interval,
                    exec_at_startup,
                },
            )
        }
    }
}

} // verus!
