//! Handling the calls that guests make to the host.

use vstd::prelude::*;

use crate::sdk::result::RpcResult;
use crate::sdk::rpc::action::Action;
use crate::sdk::rpc::logging::{
    lemma_level_code_roundtrip, spec_level_code, spec_level_of, Log, LogLevel,
};
use crate::sdk::rpc::Rpc;

verus! {

/// The text of a decimal digit.
pub open spec fn digit_char(d: nat) -> char {
    if d == 0 { '0' }
    else if d == 1 { '1' }
    else if d == 2 { '2' }
    else if d == 3 { '3' }
    else if d == 4 { '4' }
    else if d == 5 { '5' }
    else if d == 6 { '6' }
    else if d == 7 { '7' }
    else if d == 8 { '8' }
    else { '9' }
}

/// The decimal text of a natural number, without leading zeros.
pub open spec fn decimal_nat(n: nat) -> Seq<char>
    decreases n,
{
    if n < 10 {
        seq![digit_char(n)]
    } else {
        decimal_nat(n / 10).push(digit_char(n % 10))
    }
}

/// The decimal text of an integer, with a leading `-` when it is negative.
pub open spec fn decimal(v: int) -> Seq<char> {
    if v < 0 {
        seq!['-'] + decimal_nat((-v) as nat)
    } else {
        decimal_nat(v as nat)
    }
}

/// The text that prost gives for an unknown enumeration value `value`.
pub open spec fn unknown_level_text(value: i32) -> Seq<char> {
    "unknown enumeration value "@ + decimal(value as int)
}

/// The text of `prost::UnknownEnumValue(value)`: `Display` writes
/// "unknown enumeration value " and the value in decimal.
#[verifier::external_body]
fn unknown_enum_value_text(value: i32) -> (text: String)
    ensures
        text@ == unknown_level_text(value),
{
    prost::UnknownEnumValue(value).to_string()
}

/// Why the host refuses a call.
#[derive(Clone, Copy, Debug, PartialEq, Eq, Structural)]
pub enum CallError {
    /// The log record carries a level value that names no level.
    UnknownLogLevel(i32),
    /// The call asks for nothing.
    NoAction,
}

/// The text with which a refused call is answered.
pub open spec fn call_error_text(error: CallError) -> Seq<char> {
    match error {
        CallError::UnknownLogLevel(value) => unknown_level_text(value),
        CallError::NoAction => "there is no action in the call"@,
    }
}

impl CallError {
    /// The text with which the refused call is answered.
    pub fn message(&self) -> (text: String)
        ensures
            text@ == call_error_text(*self),
    {
        match self {
            CallError::UnknownLogLevel(value) => unknown_enum_value_text(*value),
            CallError::NoAction => String::from_str("there is no action in the call"),
        }
    }
}

/// What the host does for an accepted call.
pub enum Handled {
    /// Log `message` at `level` for the calling instance.
    Log { level: LogLevel, message: String },
}

/// What the host does for `rpc`, or why it refuses it.
pub open spec fn spec_handle_call(rpc: Rpc) -> Result<(LogLevel, Seq<char>), CallError> {
    match rpc.action {
        Some(Action { log: Some(log) }) => match spec_level_of(log.level) {
            Some(level) => Ok((level, log.message@)),
            None => Err(CallError::UnknownLogLevel(log.level)),
        },
        _ => Err(CallError::NoAction),
    }
}

/// Handle the guest's call: a log action is logged at its level; a call without an
/// action, or with a level value that names no level, is refused.
pub fn handle_call(rpc: Rpc) -> (handled: Result<Handled, CallError>)
    ensures
        match (handled, spec_handle_call(rpc)) {
            (Ok(Handled::Log { level, message }), Ok((l, m))) => level == l && message@ == m,
            (Err(e), Err(f)) => e == f,
            _ => false,
        },
{
    match rpc.action {
        Some(action) => match action.log {
            Some(log) => match LogLevel::try_from(log.level) {
                Ok(level) => Ok(Handled::Log { level, message: log.message }),
                Err(_) => Err(CallError::UnknownLogLevel(log.level)),
            },
            None => Err(CallError::NoAction),
        },
        None => Err(CallError::NoAction),
    }
}

/// The answer to a handled call: an accepted call returns no payload; a refused one
/// is answered with the text of its error.
pub fn reply(handled: Result<Handled, CallError>) -> (answer: RpcResult<Option<Vec<u8>>>)
    ensures
        handled is Ok ==> (answer matches RpcResult::Success(payload) && payload is None),
        handled matches Err(e) ==> (answer matches RpcResult::Failure(text) && text@
            == call_error_text(e)),
{
    match handled {
        Ok(_) => RpcResult::Success(None),
        Err(error) => RpcResult::Failure(error.message()),
    }
}

/// A call is refused exactly when it carries no log action or its level value names
/// no level, and then it is answered with the text of that reason.
pub proof fn lemma_refused_call_answer(rpc: Rpc)
    ensures
        spec_handle_call(rpc) is Err <==> !(rpc.action matches Some(Action { log: Some(log) })
            && spec_level_of(log.level) is Some),
{
}

/// A record that a guest sends at `level` (as `Log::new` makes it) is logged by the
/// host at that level, with its message.
pub proof fn lemma_sent_log_is_handled(level: LogLevel, message: String)
    ensures
        spec_handle_call(
            Rpc {
                action: Some(
                    Action { log: Some(Log { message, level: spec_level_code(level) }) },
                ),
            },
        ) == Ok::<(LogLevel, Seq<char>), CallError>((level, message@)),
{
    lemma_level_code_roundtrip(level);
}

} // verus!
