//! The actions that a guest can ask the host for.

use vstd::prelude::*;

use crate::sdk::rpc::logging::Log;

verus! {

/// What a call asks the host to do.
#[derive(Debug)]
pub struct Action {
    /// Log the message.
    pub log: Option<Log>,
}

impl From<Log> for Action {
    fn from(log: Log) -> (action: Self)
        ensures
            action.log == Some(log),
    {
        Self { log: Some(log) }
    }
}

impl vstd::std_specs::convert::FromSpecImpl<Log> for Action {
    open spec fn obeys_from_spec() -> bool {
        true
    }

    open spec fn from_spec(log: Log) -> Action {
        Action { log: Some(log) }
    }
}

/// An action made from a log record carries that record unchanged.
pub proof fn lemma_action_from_log_carries_record(log: Log)
    ensures
        <Action as vstd::std_specs::convert::FromSpec<Log>>::from_spec(log).log == Some(log),
{
}

} // verus!
