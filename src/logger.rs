use vstd::prelude::*;

use crate::format::{format_message, formatted, Record};
use crate::level::{map_level, sink_level_of, Level, SinkLevel};

verus! {

/// The error that the `log` facade returns when a logger is already set.
#[verifier::external_type_specification]
#[verifier::external_body]
pub struct ExSetLoggerError(log::SetLoggerError);

/// Installation failed: a logger was already registered with the facade.
#[derive(Clone, Copy, Debug, PartialEq, Eq, Structural)]
pub struct AlreadyInstalledError;

/// What the facade asks about before a record is built.
pub struct Metadata {
    pub level: Level,
    pub target: String,
}

/// What is handed to the sink for one record.
pub struct Entry {
    pub level: SinkLevel,
    pub scope: String,
    pub message: String,
}

/// A logger that forwards every record to the sink, reformatted as text.
#[derive(Clone, Copy, Debug)]
pub struct Logger;

impl Logger {
    /// Completes installation from the outcome of registering with the
    /// `log` facade, whose process-wide registration succeeds for exactly
    /// one caller. The logger is handed out only where that registration
    /// succeeded; otherwise the error says that a logger was already set.
    pub fn install(registration: Result<(), log::SetLoggerError>) -> (r: Result<
        Logger,
        AlreadyInstalledError,
    >)
        ensures
            r is Ok <==> registration is Ok,
    {
        match registration {
            Ok(()) => Ok(Logger),
            Err(_) => Err(AlreadyInstalledError),
        }
    }

    /// Every record is enabled: filtering is left to the facade's global
    /// maximum level.
    pub fn enabled(&self, _metadata: &Metadata) -> (r: bool)
        ensures
            r,
    {
        true
    }

    /// Translates a record into what the sink receives: the severity of the
    /// same name, the target as scope, and the formatted message.
    pub fn log(&self, record: &Record) -> (r: Entry)
        ensures
            r.level == sink_level_of(record.level),
            r.scope@ == record.target@,
            r.message@ == formatted(record),
    {
        let level = map_level(record.level);
        let message = format_message(record);
        Entry { level, scope: record.target.clone(), message }
    }

    /// Nothing is buffered, so there is nothing to flush.
    pub fn flush(&self) {
    }
}

} // verus!
