use home_companion::sdk::abi::{Action as HostAction, HostCall};
use home_companion::sdk::rpc::action::Action;
use home_companion::sdk::rpc::logging::{Log, LogLevel, UnknownLogLevel};
use home_companion::sdk::rpc::Rpc;

#[test]
fn log_constructors_set_level_codes() {
    assert_eq!(Log::error("e".to_string()).level, 0);
    assert_eq!(Log::info("i".to_string()).level, 10);
    assert_eq!(Log::debug("d".to_string()).level, 20);
    assert_eq!(Log::trace("t".to_string()).level, 30);
    let log = Log::new(LogLevel::Debug, "message".to_string());
    assert_eq!(log.level, 20);
    assert_eq!(log.message, "message");
}

#[test]
fn level_codes_roundtrip() {
    for level in [LogLevel::Error, LogLevel::Info, LogLevel::Debug, LogLevel::Trace] {
        assert_eq!(LogLevel::try_from(level.code()), Ok(level));
    }
}

#[test]
fn unknown_level_codes_are_refused() {
    for value in [-1, 1, 5, 11, 31, i32::MIN, i32::MAX] {
        assert_eq!(LogLevel::try_from(value), Err(UnknownLogLevel(value)));
    }
}

#[test]
fn rpc_wraps_log_action() {
    let rpc = Rpc::from(Log::info("hello".to_string()));
    let log = rpc.action.unwrap().log.unwrap();
    assert_eq!(log.message, "hello");
    assert_eq!(log.level, 10);

    let rpc = Rpc::from(Action::from(Log::trace("t".to_string())));
    assert_eq!(rpc.action.unwrap().log.unwrap().level, 30);
}

#[test]
fn host_call_carries_log_inline() {
    let call = HostCall { action: Some(HostAction::Log(Log::error("boom".to_string()))) };
    match call.action {
        Some(HostAction::Log(log)) => {
            assert_eq!(log.message, "boom");
            assert_eq!(log.level, 0);
        }
        None => panic!("the action is missing"),
    }
}

#[test]
fn level_into_wire_value() {
    assert_eq!(i32::from(LogLevel::Error), 0);
    assert_eq!(i32::from(LogLevel::Info), 10);
    assert_eq!(i32::from(LogLevel::Debug), 20);
    assert_eq!(i32::from(LogLevel::Trace), 30);
}
