//! Initialising a connection's guest: the host side of the `init()` protocol.
//!
//! The guest's `init()` accepts a MessagePack-encoded settings byte string (a
//! packed descriptor of its address and length) and returns a descriptor of a
//! Protocol Buffers-encoded state byte string. The host allocates and writes the
//! settings into guest memory before calling `init()`. The returned length may be
//! `0`; the host then needs no access to the memory.
//!
//! The host runs the protocol as a loop: it performs the command that the
//! session gives and hands the outcome back as an event.

use vstd::prelude::*;

use crate::host::wasm::memory::{
    read_request, spec_recorded_size, GuestWrite, ReadRequest, WriteCommand,
};
use crate::sdk::memory::{spec_pack, spec_split, BufferDescriptor};

verus! {

/// Where an initialisation stands.
pub enum InitPhase {
    /// Waiting for the guest's `alloc()` to make room for the settings.
    Allocating { write: GuestWrite },
    /// Waiting for the settings to be copied into the slice `descriptor`.
    Writing { descriptor: BufferDescriptor },
    /// Waiting for `init()` to return.
    Initializing,
    /// Waiting for the returned state to be copied out of guest memory.
    Reading,
    /// The state is known.
    Finished,
}

/// What the host does next.
pub enum InitCommand {
    /// Call the guest's `alloc(size)`.
    Allocate { size: u32 },
    /// Copy the bytes into guest memory at the offset.
    Write(WriteCommand),
    /// Call the guest's `init(argument)`.
    CallInit { argument: u64 },
    /// Copy a slice out of guest memory.
    Read(ReadRequest),
    /// The initial state of the connection.
    Complete { state: Vec<u8> },
}

/// What happened when the host performed the last command.
pub enum InitEvent {
    /// `alloc()` returned the offset.
    Allocated { offset: u32 },
    /// The bytes were copied.
    Written,
    /// `init()` returned the raw descriptor.
    Returned { descriptor: u64 },
    /// The slice was copied out.
    ReadDone { bytes: Vec<u8> },
}

/// An event that does not answer the last command.
#[derive(Debug, PartialEq, Eq, Structural)]
pub enum InitError {
    OutOfOrder,
}

/// The host side of one connection's initialisation.
pub struct InitSession {
    pub phase: InitPhase,
}

/// Whether `event` answers a session in `phase`.
pub open spec fn expects(phase: InitPhase, event: InitEvent) -> bool {
    match (phase, event) {
        (InitPhase::Allocating { .. }, InitEvent::Allocated { .. }) => true,
        (InitPhase::Writing { .. }, InitEvent::Written) => true,
        (InitPhase::Initializing, InitEvent::Returned { .. }) => true,
        (InitPhase::Reading, InitEvent::ReadDone { .. }) => true,
        _ => false,
    }
}

impl InitSession {
    /// Begin initialising with the MessagePack-encoded `settings`: first ask the guest
    /// for room to write them.
    pub fn start(settings: Vec<u8>) -> (res: (InitSession, InitCommand))
        ensures
            res.0.phase matches InitPhase::Allocating { write } && write.bytes() == settings@,
            res.1 matches InitCommand::Allocate { size } && size == spec_recorded_size(
                settings@.len(),
            ),
            settings@.len() < 0x1_0000_0000 ==> (res.1 matches InitCommand::Allocate { size }
                && size == settings@.len()),
    {
        let (write, size) = GuestWrite::start(settings);
        (InitSession { phase: InitPhase::Allocating { write } }, InitCommand::Allocate { size })
    }

    /// Advance the session by the outcome of the last command.
    pub fn step(self, event: InitEvent) -> (res: Result<(InitSession, InitCommand), InitError>)
        ensures
            !expects(self.phase, event) <==> res == Err::<(InitSession, InitCommand), InitError>(
                InitError::OutOfOrder,
            ),
            // The settings go to the slice that `alloc()` made room for.
            self.phase matches InitPhase::Allocating { write } ==> event matches InitEvent::Allocated {
                offset,
            } ==> res matches Ok((next, command)) && next.phase matches InitPhase::Writing {
                descriptor,
            } && command matches InitCommand::Write(w) && w.offset == offset && w.bytes@
                == write.bytes() && w.descriptor == descriptor && descriptor@ == spec_pack(
                offset,
                spec_recorded_size(write.bytes().len()),
            ),
            // A settings string that fits the guest's address space is described whole.
            self.phase matches InitPhase::Allocating { write } ==> event matches InitEvent::Allocated {
                offset,
            } ==> write.bytes().len() < 0x1_0000_0000 ==> (res matches Ok((next, command))
                && command matches InitCommand::Write(w) && spec_split(w.descriptor@) == (
                offset,
                write.bytes().len() as u32,
            )),
            // Once they are written, `init()` gets the descriptor of that slice.
            self.phase matches InitPhase::Writing { descriptor } ==> event matches InitEvent::Written
                ==> res matches Ok((next, command)) && next.phase matches InitPhase::Initializing
                && command matches InitCommand::CallInit { argument } && argument == descriptor@,
            // An empty state needs no memory access; any other is read from the slice returned.
            self.phase matches InitPhase::Initializing ==> event matches InitEvent::Returned {
                descriptor,
            } ==> res matches Ok((next, command)) && if spec_split(descriptor).1 == 0 {
                next.phase matches InitPhase::Finished && command matches InitCommand::Complete {
                    state,
                } && state@ == Seq::<u8>::empty()
            } else {
                next.phase matches InitPhase::Reading && command matches InitCommand::Read(r)
                    && r.offset == spec_split(descriptor).0 && r.size == spec_split(descriptor).1
            },
            // What was read is the state.
            self.phase matches InitPhase::Reading ==> event matches InitEvent::ReadDone { bytes }
                ==> res matches Ok((next, command)) && next.phase matches InitPhase::Finished
                && command matches InitCommand::Complete { state } && state@ == bytes@,
    {
        match (self.phase, event) {
            (InitPhase::Allocating { write }, InitEvent::Allocated { offset }) => {
                let command = write.allocated(offset);
                let descriptor = command.descriptor;
                Ok((InitSession { phase: InitPhase::Writing { descriptor } }, InitCommand::Write(command)))
            },
            (InitPhase::Writing { descriptor }, InitEvent::Written) => {
                let argument = u64::from(descriptor);
                Ok((InitSession { phase: InitPhase::Initializing }, InitCommand::CallInit { argument }))
            },
            (InitPhase::Initializing, InitEvent::Returned { descriptor }) => {
                match read_request(BufferDescriptor::from_raw(descriptor)) {
                    None => Ok(
                        (
                            InitSession { phase: InitPhase::Finished },
                            InitCommand::Complete { state: Vec::new() },
                        ),
                    ),
                    Some(request) => Ok(
                        (InitSession { phase: InitPhase::Reading }, InitCommand::Read(request)),
                    ),
                }
            },
            (InitPhase::Reading, InitEvent::ReadDone { bytes }) => {
                Ok((InitSession { phase: InitPhase::Finished }, InitCommand::Complete { state: bytes }))
            },
            _ => Err(InitError::OutOfOrder),
        }
    }
}

} // verus!
