use vstd::prelude::*;

verus! {

/// The five severities of a structured log record, from most to least severe.
#[derive(Clone, Copy, Debug, PartialEq, Eq, Structural)]
pub enum Level {
    Error,
    Warn,
    Info,
    Debug,
    Trace,
}

/// The severities that the external sink accepts.
#[derive(Clone, Copy, Debug, PartialEq, Eq, Structural)]
pub enum SinkLevel {
    Error,
    Warn,
    Info,
    Debug,
    Trace,
}

/// Each record severity stands for the sink severity of the same name.
pub open spec fn sink_level_of(level: Level) -> SinkLevel {
    match level {
        Level::Error => SinkLevel::Error,
        Level::Warn => SinkLevel::Warn,
        Level::Info => SinkLevel::Info,
        Level::Debug => SinkLevel::Debug,
        Level::Trace => SinkLevel::Trace,
    }
}

/// Maps a record severity onto the sink's severity of the same name.
pub fn map_level(level: Level) -> (r: SinkLevel)
    ensures
        r == sink_level_of(level),
{
    match level {
        Level::Error => SinkLevel::Error,
        Level::Warn => SinkLevel::Warn,
        Level::Info => SinkLevel::Info,
        Level::Debug => SinkLevel::Debug,
        Level::Trace => SinkLevel::Trace,
    }
}

/// No two record severities are mapped onto the same sink severity.
pub proof fn lemma_map_level_injective(a: Level, b: Level)
    requires
        sink_level_of(a) == sink_level_of(b),
    ensures
        a == b,
{
}

/// Every sink severity is reached by some record severity, so the mapping
/// is a bijection between the two enumerations.
pub proof fn lemma_map_level_surjective(s: SinkLevel)
    ensures
        exists|l: Level| sink_level_of(l) == s,
{
    let l = match s {
        SinkLevel::Error => Level::Error,
        SinkLevel::Warn => Level::Warn,
        SinkLevel::Info => Level::Info,
        SinkLevel::Debug => Level::Debug,
        SinkLevel::Trace => Level::Trace,
    };
    assert(sink_level_of(l) == s);
}

} // verus!
