//! Memory management: packed references to guest memory slices.

use vstd::prelude::*;

verus! {

/// Two to the power of 32: the size of the offset half of a descriptor.
pub open spec fn half_span() -> int {
    0x1_0000_0000
}

/// The raw value that packs `offset` into the low and `size` into the high 32 bits.
pub open spec fn spec_pack(offset: u32, size: u32) -> int {
    offset as int + size as int * half_span()
}

/// The `(offset, size)` pair that a raw value holds in its low and high 32 bits.
pub open spec fn spec_split(raw: u64) -> (u32, u32) {
    ((raw as int % half_span()) as u32, (raw as int / half_span()) as u32)
}

/// Packed reference to a memory slice on WASM module side.
#[derive(Clone, Copy)]
pub struct BufferDescriptor(u64);

impl View for BufferDescriptor {
    type V = u64;

    closed spec fn view(&self) -> u64 {
        self.0
    }
}

impl BufferDescriptor {
    /// Wrap a raw packed value received from the other side.
    pub fn from_raw(raw: u64) -> (descriptor: Self)
        ensures
            descriptor@ == raw,
    {
        Self(raw)
    }

    /// Pack offset and size into a single 64-bit slice reference.
    pub fn new(offset: u32, size: u32) -> (descriptor: Self)
        ensures
            descriptor@ == spec_pack(offset, size),
    {
        let low = offset as u64;
        let high = size as u64;
        let raw = low | (high << 32u64);
        assert(low | (high << 32u64) == low + high * 0x1_0000_0000) by (bit_vector)
            requires
                low <= 0xffff_ffff,
                high <= 0xffff_ffff,
        ;
        Self(raw)
    }

    /// Split the packed slice reference into separate offset and size.
    pub fn split(self) -> (parts: (u32, u32))
        ensures
            parts == spec_split(self@),
    {
        let raw = self.0;
        let offset = (raw & 0xffff_ffffu64) as u32;
        let size = (raw >> 32u64) as u32;
        assert((raw & 0xffff_ffffu64) == raw % 0x1_0000_0000 && (raw >> 32u64) == raw / 0x1_0000_0000)
            by (bit_vector);
        (offset, size)
    }
}

impl From<BufferDescriptor> for u64 {
    /// The raw packed value, as handed to the other side.
    fn from(descriptor: BufferDescriptor) -> (raw: u64) {
        descriptor.0
    }
}

impl vstd::std_specs::convert::FromSpecImpl<BufferDescriptor> for u64 {
    open spec fn obeys_from_spec() -> bool {
        true
    }

    open spec fn from_spec(descriptor: BufferDescriptor) -> u64 {
        descriptor@
    }
}

/// Splitting a descriptor made by `new` gives back the offset and the size it was made of.
pub proof fn lemma_split_of_pack(offset: u32, size: u32)
    ensures
        0 <= spec_pack(offset, size) <= u64::MAX,
        spec_split(spec_pack(offset, size) as u64) == (offset, size),
{
    assert(0 <= offset as int + size as int * 0x1_0000_0000 <= 0xffff_ffff_ffff_ffff)
        by (nonlinear_arith);
    let raw: int = offset as int + size as int * 0x1_0000_0000;
    assert(raw % 0x1_0000_0000 == offset as int && raw / 0x1_0000_0000 == size as int)
        by (nonlinear_arith)
        requires
            raw == offset as int + size as int * 0x1_0000_0000,
            0 <= offset < 0x1_0000_0000,
    ;
}

/// Packing the two halves of any raw value gives back that raw value.
pub proof fn lemma_pack_of_split(raw: u64)
    ensures
        spec_pack(spec_split(raw).0, spec_split(raw).1) == raw,
{
    let r: int = raw as int;
    assert(r % 0x1_0000_0000 + (r / 0x1_0000_0000) * 0x1_0000_0000 == r
        && 0 <= r / 0x1_0000_0000 < 0x1_0000_0000) by (nonlinear_arith)
        requires
            0 <= r <= 0xffff_ffff_ffff_ffff,
    ;
}

} // verus!
