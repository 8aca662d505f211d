use home_companion::host::wasm::connection::{InitCommand, InitError, InitEvent, InitPhase, InitSession};
use home_companion::host::wasm::memory::{read_request, recorded_size, GuestWrite};
use home_companion::sdk::memory::BufferDescriptor;

fn expect_step(session: InitSession, event: InitEvent) -> (InitSession, InitCommand) {
    match session.step(event) {
        Ok(next) => next,
        Err(error) => panic!("step refused: {error:?}"),
    }
}

#[test]
fn init_writes_settings_calls_init_and_reads_state() {
    let (session, command) = InitSession::start(vec![0x81, 0xa4, b'h']);
    let InitCommand::Allocate { size } = command else { panic!("expected an allocation") };
    assert_eq!(size, 3);

    let (session, command) = expect_step(session, InitEvent::Allocated { offset: 1024 });
    let InitCommand::Write(write) = command else { panic!("expected a write") };
    assert_eq!(write.offset, 1024);
    assert_eq!(write.bytes, vec![0x81, 0xa4, b'h']);
    assert_eq!(write.descriptor.split(), (1024, 3));

    let (session, command) = expect_step(session, InitEvent::Written);
    let InitCommand::CallInit { argument } = command else { panic!("expected the init call") };
    assert_eq!(argument, (3u64 << 32) | 1024);

    let returned = u64::from(BufferDescriptor::new(4096, 2));
    let (session, command) = expect_step(session, InitEvent::Returned { descriptor: returned });
    let InitCommand::Read(request) = command else { panic!("expected a read") };
    assert_eq!((request.offset, request.size), (4096, 2));

    let (session, command) = expect_step(session, InitEvent::ReadDone { bytes: vec![9, 8] });
    let InitCommand::Complete { state } = command else { panic!("expected completion") };
    assert_eq!(state, vec![9, 8]);
    assert!(matches!(session.phase, InitPhase::Finished));
}

#[test]
fn empty_state_needs_no_memory_access() {
    let (session, _) = InitSession::start(Vec::new());
    let (session, _) = expect_step(session, InitEvent::Allocated { offset: 8 });
    let (session, _) = expect_step(session, InitEvent::Written);
    let returned = u64::from(BufferDescriptor::new(777, 0));
    let (session, command) = expect_step(session, InitEvent::Returned { descriptor: returned });
    let InitCommand::Complete { state } = command else { panic!("expected completion") };
    assert!(state.is_empty());
    assert!(matches!(session.phase, InitPhase::Finished));
}

#[test]
fn out_of_order_events_are_refused() {
    let (session, _) = InitSession::start(vec![1]);
    assert_eq!(session.step(InitEvent::Written).err(), Some(InitError::OutOfOrder));
    let (session, _) = InitSession::start(vec![1]);
    assert_eq!(
        session.step(InitEvent::ReadDone { bytes: vec![] }).err(),
        Some(InitError::OutOfOrder)
    );
}

#[test]
fn guest_write_describes_allocated_slice() {
    let (write, size) = GuestWrite::start(vec![1, 2, 3, 4, 5]);
    assert_eq!(size, 5);
    let command = write.allocated(64);
    assert_eq!(command.offset, 64);
    assert_eq!(command.bytes, vec![1, 2, 3, 4, 5]);
    assert_eq!(command.descriptor.split(), (64, 5));
}

#[test]
fn recorded_size_truncates_to_32_bits() {
    assert_eq!(recorded_size(0), 0);
    assert_eq!(recorded_size(42), 42);
    if usize::BITS > 32 {
        assert_eq!(recorded_size((1usize << 32) + 5), 5);
    }
}

#[test]
fn read_request_of_descriptor() {
    assert!(read_request(BufferDescriptor::new(100, 0)).is_none());
    let request = read_request(BufferDescriptor::new(100, 7)).unwrap();
    assert_eq!((request.offset, request.size), (100, 7));
}
