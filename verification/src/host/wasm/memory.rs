//! Writing to and reading from guest memory: the host's decisions.
//!
//! The host writes a byte string into a guest by asking the guest's `alloc()`
//! for room, copying the bytes there and describing the slice with a
//! `BufferDescriptor`. It reads a slice that a descriptor names, and needs no
//! memory access for an empty one.

use vstd::prelude::*;

use crate::sdk::memory::{lemma_split_of_pack, spec_pack, spec_split, BufferDescriptor};

verus! {

/// The size that a descriptor records for a byte string of length `len`: the length
/// truncated to 32 bits, as a guest address space is.
pub open spec fn spec_recorded_size(len: nat) -> u32 {
    (len % 0x1_0000_0000) as u32
}

/// The recorded size of a byte string of length `len`.
pub fn recorded_size(len: usize) -> (size: u32)
    ensures
        size == spec_recorded_size(len as nat),
        len < 0x1_0000_0000 ==> size == len,
{
    assert((#[verifier::truncate] (len as u32)) as int == len as int % 0x1_0000_0000) by (bit_vector);
    #[verifier::truncate]
    (len as u32)
}

/// A byte string on its way into guest memory, waiting for the guest to allocate room.
pub struct GuestWrite {
    bytes: Vec<u8>,
}

/// What the host does once the guest has allocated room: copy `bytes` to `offset`;
/// the slice is then described by `descriptor`.
pub struct WriteCommand {
    pub offset: usize,
    pub bytes: Vec<u8>,
    pub descriptor: BufferDescriptor,
}

impl GuestWrite {
    /// The bytes that this write will copy.
    pub closed spec fn bytes(self) -> Seq<u8> {
        self.bytes@
    }

    /// Start writing `bytes`; the host asks the guest's `alloc()` for `size` bytes.
    pub fn start(bytes: Vec<u8>) -> (res: (GuestWrite, u32))
        ensures
            res.0.bytes() == bytes@,
            res.1 == spec_recorded_size(bytes@.len()),
            bytes@.len() < 0x1_0000_0000 ==> res.1 == bytes@.len(),
    {
        let size = recorded_size(bytes.len());
        (GuestWrite { bytes }, size)
    }

    /// The guest allocated room at `offset`: copy the bytes there.
    pub fn allocated(self, offset: u32) -> (command: WriteCommand)
        ensures
            command.offset == offset,
            command.bytes@ == self.bytes(),
            command.descriptor@ == spec_pack(offset, spec_recorded_size(self.bytes().len())),
            self.bytes().len() < 0x1_0000_0000 ==> spec_split(command.descriptor@) == (
                offset,
                self.bytes().len() as u32,
            ),
    {
        let size = recorded_size(self.bytes.len());
        let descriptor = BufferDescriptor::new(offset, size);
        proof {
            lemma_split_of_pack(offset, size);
        }
        WriteCommand { offset: offset as usize, bytes: self.bytes, descriptor }
    }
}

/// A slice of guest memory to copy out.
pub struct ReadRequest {
    pub offset: usize,
    pub size: usize,
}

/// The memory access that reading the slice `descriptor` needs: none for an empty slice.
pub fn read_request(descriptor: BufferDescriptor) -> (request: Option<ReadRequest>)
    ensures
        spec_split(descriptor@).1 == 0 <==> request is None,
        request matches Some(r) ==> r.offset == spec_split(descriptor@).0 && r.size
            == spec_split(descriptor@).1,
{
    let (offset, size) = descriptor.split();
    if size == 0 {
        None
    } else {
        Some(ReadRequest { offset: offset as usize, size: size as usize })
    }
}

/// The slice that a write of `len` bytes at `offset` is described with is read back
/// from that offset with the recorded size; nothing is read for an empty write.
pub proof fn lemma_written_slice_is_read_back(offset: u32, len: nat)
    ensures
        0 <= spec_pack(offset, spec_recorded_size(len)) <= u64::MAX,
        spec_split(spec_pack(offset, spec_recorded_size(len)) as u64) == (
            offset,
            spec_recorded_size(len),
        ),
        spec_recorded_size(len) == 0 <==> len % 0x1_0000_0000 == 0,
{
    lemma_split_of_pack(offset, spec_recorded_size(len));
}

/// Every length that fits in 32 bits is recorded as itself, so the room asked of
/// `alloc()` and the size in the descriptor equal the length of the bytes.
pub proof fn lemma_recorded_size_is_length(len: nat)
    requires
        len < 0x1_0000_0000,
    ensures
        spec_recorded_size(len) == len,
{
}

/// Lengths that differ by a multiple of 2^32 are recorded alike, and the recorded size
/// is never more than the length.
pub proof fn lemma_recorded_size_wraps(len: nat)
    ensures
        spec_recorded_size(len + 0x1_0000_0000) == spec_recorded_size(len),
        spec_recorded_size(len) <= len,
{
}

} // verus!
