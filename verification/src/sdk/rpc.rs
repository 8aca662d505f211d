//! Remote procedure calls from a guest to the host.

pub mod action;
pub mod logging;

use vstd::prelude::*;

use crate::sdk::rpc::action::Action;
use crate::sdk::rpc::logging::Log;

verus! {

/// A call from a guest to the host.
#[derive(Debug)]
pub struct Rpc {
    pub action: Option<Action>,
}

impl From<Action> for Rpc {
    fn from(action: Action) -> (rpc: Self)
        ensures
            rpc.action == Some(action),
    {
        Self { action: Some(action) }
    }
}

impl vstd::std_specs::convert::FromSpecImpl<Action> for Rpc {
    open spec fn obeys_from_spec() -> bool {
        true
    }

    open spec fn from_spec(action: Action) -> Rpc {
        Rpc { action: Some(action) }
    }
}

impl From<Log> for Rpc {
    fn from(log: Log) -> (rpc: Self)
        ensures
            rpc.action == Some(Action { log: Some(log) }),
            rpc.action matches Some(a) && a.log matches Some(l) && l.level == log.level
                && l.message@ == log.message@,
    {
        Self { action: Some(Action::from(log)) }
    }
}

impl vstd::std_specs::convert::FromSpecImpl<Log> for Rpc {
    open spec fn obeys_from_spec() -> bool {
        true
    }

    open spec fn from_spec(log: Log) -> Rpc {
        Rpc { action: Some(Action { log: Some(log) }) }
    }
}

/// A call made from a log record carries that record unchanged: the same level and
/// the same message, as the only action of the call.
pub proof fn lemma_call_from_log_carries_record(log: Log)
    ensures
        <Rpc as vstd::std_specs::convert::FromSpec<Log>>::from_spec(log).action == Some(
            Action { log: Some(log) },
        ),
        <Rpc as vstd::std_specs::convert::FromSpec<Log>>::from_spec(log).action matches Some(a)
            && a.log matches Some(l) && l.level == log.level && l.message == log.message,
{
}

/// A call made from an action carries that action unchanged.
pub proof fn lemma_call_from_action_carries_it(action: Action)
    ensures
        <Rpc as vstd::std_specs::convert::FromSpec<Action>>::from_spec(action).action == Some(action),
{
}

} // verus!
