use home_companion::host::rpc::{handle_call, reply, CallError, Handled};
use home_companion::sdk::result::RpcResult;
use home_companion::sdk::rpc::action::Action;
use home_companion::sdk::rpc::logging::{Log, LogLevel};
use home_companion::sdk::rpc::Rpc;

#[test]
fn log_call_is_handled_at_its_level() {
    let handled = handle_call(Rpc::from(Log::debug("details".to_string())));
    match handled {
        Ok(Handled::Log { level, message }) => {
            assert_eq!(level, LogLevel::Debug);
            assert_eq!(message, "details");
        }
        Err(error) => panic!("refused: {error:?}"),
    }
}

#[test]
fn call_without_action_is_refused() {
    let refused = handle_call(Rpc { action: None });
    assert_eq!(refused.as_ref().err(), Some(&CallError::NoAction));
    let refused = handle_call(Rpc { action: Some(Action { log: None }) });
    assert_eq!(refused.as_ref().err(), Some(&CallError::NoAction));
}

#[test]
fn call_with_unknown_level_is_refused() {
    let log = Log { message: "x".to_string(), level: 15 };
    let refused = handle_call(Rpc::from(log));
    assert_eq!(refused.as_ref().err(), Some(&CallError::UnknownLogLevel(15)));
}

#[test]
fn refusal_texts() {
    assert_eq!(CallError::NoAction.message(), "there is no action in the call");
    assert_eq!(CallError::UnknownLogLevel(7).message(), "unknown enumeration value 7");
    assert_eq!(CallError::UnknownLogLevel(-12).message(), "unknown enumeration value -12");
}

#[test]
fn replies() {
    match reply(handle_call(Rpc::from(Log::info("ok".to_string())))) {
        RpcResult::Success(payload) => assert!(payload.is_none()),
        RpcResult::Failure(message) => panic!("unexpected failure: {message}"),
    }
    match reply(handle_call(Rpc { action: None })) {
        RpcResult::Failure(message) => assert_eq!(message, "there is no action in the call"),
        RpcResult::Success(_) => panic!("expected a failure"),
    }
    let log = Log { message: "x".to_string(), level: 3 };
    match reply(handle_call(Rpc::from(log))) {
        RpcResult::Failure(message) => assert_eq!(message, "unknown enumeration value 3"),
        RpcResult::Success(_) => panic!("expected a failure"),
    }
}
