//! Log records that a guest hands to the host.

use vstd::prelude::*;

verus! {

/// Severity of a log record. On the wire it is the integer that `code` gives.
#[derive(Clone, Copy, Debug, PartialEq, Eq, Structural)]
pub enum LogLevel {
    Error,
    Info,
    Debug,
    Trace,
}

/// The wire value of each level.
pub open spec fn spec_level_code(level: LogLevel) -> i32 {
    match level {
        LogLevel::Error => 0,
        LogLevel::Info => 10,
        LogLevel::Debug => 20,
        LogLevel::Trace => 30,
    }
}

/// The level that a wire value stands for, if any.
pub open spec fn spec_level_of(value: i32) -> Option<LogLevel> {
    if value == 0 {
        Some(LogLevel::Error)
    } else if value == 10 {
        Some(LogLevel::Info)
    } else if value == 20 {
        Some(LogLevel::Debug)
    } else if value == 30 {
        Some(LogLevel::Trace)
    } else {
        None
    }
}

/// A wire value that names no level.
#[derive(Clone, Copy, Debug, PartialEq, Eq, Structural)]
pub struct UnknownLogLevel(pub i32);

impl LogLevel {
    /// The wire value of the level.
    pub fn code(self) -> (value: i32)
        ensures
            value == spec_level_code(self),
    {
        match self {
            LogLevel::Error => 0,
            LogLevel::Info => 10,
            LogLevel::Debug => 20,
            LogLevel::Trace => 30,
        }
    }
}

impl From<LogLevel> for i32 {
    /// The wire value of the level.
    fn from(level: LogLevel) -> (value: i32) {
        level.code()
    }
}

impl vstd::std_specs::convert::FromSpecImpl<LogLevel> for i32 {
    open spec fn obeys_from_spec() -> bool {
        true
    }

    open spec fn from_spec(level: LogLevel) -> i32 {
        spec_level_code(level)
    }
}

impl TryFrom<i32> for LogLevel {
    type Error = UnknownLogLevel;

    /// The level with the wire value `value`; a value that names no level is refused.
    fn try_from(value: i32) -> (level: Result<Self, UnknownLogLevel>) {
        if value == 0 {
            Ok(LogLevel::Error)
        } else if value == 10 {
            Ok(LogLevel::Info)
        } else if value == 20 {
            Ok(LogLevel::Debug)
        } else if value == 30 {
            Ok(LogLevel::Trace)
        } else {
            Err(UnknownLogLevel(value))
        }
    }
}

impl vstd::std_specs::convert::TryFromSpecImpl<i32> for LogLevel {
    open spec fn obeys_try_from_spec() -> bool {
        true
    }

    open spec fn try_from_spec(value: i32) -> Result<Self, UnknownLogLevel> {
        match spec_level_of(value) {
            Some(level) => Ok(level),
            None => Err(UnknownLogLevel(value)),
        }
    }
}

/// A log record.
#[derive(Clone, Debug)]
pub struct Log {
    pub message: String,
    /// Wire value of the level (see `LogLevel::code`).
    pub level: i32,
}

impl Log {
    /// A record of `message` at `level`.
    pub fn new(level: LogLevel, message: String) -> (log: Self)
        ensures
            log.level == spec_level_code(level),
            log.message@ == message@,
    {
        Self { level: level.code(), message }
    }

    /// A record at the error level.
    pub fn error(message: String) -> (log: Self)
        ensures
            log.level == spec_level_code(LogLevel::Error),
            log.message@ == message@,
    {
        Self::new(LogLevel::Error, message)
    }

    /// A record at the info level.
    pub fn info(message: String) -> (log: Self)
        ensures
            log.level == spec_level_code(LogLevel::Info),
            log.message@ == message@,
    {
        Self::new(LogLevel::Info, message)
    }

    /// A record at the debug level.
    pub fn debug(message: String) -> (log: Self)
        ensures
            log.level == spec_level_code(LogLevel::Debug),
            log.message@ == message@,
    {
        Self::new(LogLevel::Debug, message)
    }

    /// A record at the trace level.
    pub fn trace(message: String) -> (log: Self)
        ensures
            log.level == spec_level_code(LogLevel::Trace),
            log.message@ == message@,
    {
        Self::new(LogLevel::Trace, message)
    }
}

/// Every level survives the trip to its wire value and back.
pub proof fn lemma_level_code_roundtrip(level: LogLevel)
    ensures
        spec_level_of(spec_level_code(level)) == Some(level),
{
}

/// A wire value that names a level is that level's wire value.
pub proof fn lemma_level_of_roundtrip(value: i32)
    ensures
        spec_level_of(value) matches Some(level) ==> spec_level_code(level) == value,
{
}

/// Distinct levels have distinct wire values.
pub proof fn lemma_level_code_injective(a: LogLevel, b: LogLevel)
    ensures
        spec_level_code(a) == spec_level_code(b) <==> a == b,
{
}

} // verus!
