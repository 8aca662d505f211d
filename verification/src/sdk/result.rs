//! The result of a call across the host/guest boundary.

use vstd::prelude::*;

verus! {

/// Module export call result: a value, or the text of the error.
pub enum RpcResult<T> {
    Success(T),
    Failure(String),
}

impl<T> From<Result<T, String>> for RpcResult<T> {
    fn from(result: Result<T, String>) -> (rpc_result: Self) {
        match result {
            Ok(value) => RpcResult::Success(value),
            Err(message) => RpcResult::Failure(message),
        }
    }
}

impl<T> vstd::std_specs::convert::FromSpecImpl<Result<T, String>> for RpcResult<T> {
    open spec fn obeys_from_spec() -> bool {
        true
    }

    open spec fn from_spec(result: Result<T, String>) -> RpcResult<T> {
        match result {
            Ok(value) => RpcResult::Success(value),
            Err(message) => RpcResult::Failure(message),
        }
    }
}

impl<T> From<RpcResult<T>> for Result<T, String> {
    fn from(rpc_result: RpcResult<T>) -> (result: Self) {
        match rpc_result {
            RpcResult::Success(value) => Ok(value),
            RpcResult::Failure(message) => Err(message),
        }
    }
}

impl<T> vstd::std_specs::convert::FromSpecImpl<RpcResult<T>> for Result<T, String> {
    open spec fn obeys_from_spec() -> bool {
        true
    }

    open spec fn from_spec(rpc_result: RpcResult<T>) -> Result<T, String> {
        match rpc_result {
            RpcResult::Success(value) => Ok(value),
            RpcResult::Failure(message) => Err(message),
        }
    }
}

/// A result that crosses the boundary and comes back is the result that left.
pub proof fn lemma_result_roundtrip<T>(result: Result<T, String>)
    ensures
        <Result<T, String> as vstd::std_specs::convert::FromSpec<RpcResult<T>>>::from_spec(
            <RpcResult<T> as vstd::std_specs::convert::FromSpec<Result<T, String>>>::from_spec(result),
        ) == result,
{
}

/// An `RpcResult` turned into a `Result` and back is unchanged.
pub proof fn lemma_rpc_result_roundtrip<T>(rpc_result: RpcResult<T>)
    ensures
        <RpcResult<T> as vstd::std_specs::convert::FromSpec<Result<T, String>>>::from_spec(
            <Result<T, String> as vstd::std_specs::convert::FromSpec<RpcResult<T>>>::from_spec(rpc_result),
        ) == rpc_result,
{
}

} // verus!
