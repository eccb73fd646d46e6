use vstd::prelude::*;

use crate::allocator::{aligned_size, lemma_allocate_free_round_trip, Allocation, MemoryAllocator};
use crate::error::GpuError;

verus! {

/// Buffer usage bit: the buffer may be the source of a transfer.
pub const BUFFER_USAGE_TRANSFER_SRC: u32 = 0x1;
/// Buffer usage bit: the buffer may be the destination of a transfer.
pub const BUFFER_USAGE_TRANSFER_DST: u32 = 0x2;
/// Buffer usage bit: the buffer may back a uniform block.
pub const BUFFER_USAGE_UNIFORM_BUFFER: u32 = 0x10;
/// Buffer usage bit: the buffer may be bound as an index stream.
pub const BUFFER_USAGE_INDEX_BUFFER: u32 = 0x40;
/// Buffer usage bit: the buffer may be bound as a vertex stream.
pub const BUFFER_USAGE_VERTEX_BUFFER: u32 = 0x80;

/// Where the memory behind a resource lives.
#[derive(Debug, Clone, Copy, PartialEq, Eq, Structural)]
pub enum BufferLocation {
    /// Device-local memory, never mapped on the host.
    GpuOnly,
    /// Host-visible memory written by the host and read by the device.
    CpuToGpu,
    /// Host-visible memory that stays mapped for the object's lifetime.
    PersistentMapped,
}

/// How often the contents of a resource are expected to change.
#[derive(Debug, Clone, Copy, PartialEq, Eq, Structural)]
pub enum ResourceUsageType {
    Immutable,
    Dynamic,
    Stream,
}

/// Whether the host can write memory of this location.
pub open spec fn is_host_visible(location: BufferLocation) -> bool {
    location != BufferLocation::GpuOnly
}

/// Whether the host can write memory of this location.
pub fn host_visible(location: BufferLocation) -> (r: bool)
    ensures
        r == is_host_visible(location),
{
    match location {
        BufferLocation::GpuOnly => false,
        _ => true,
    }
}

/// Description of a buffer, filled in by chained setters and consumed once
/// at creation.
#[derive(Debug, Clone, Copy, PartialEq, Eq, Structural)]
pub struct BufferDesc {
    pub usage_flags: u32,
    pub resource_usage: ResourceUsageType,
    pub size: u32,
    pub device_only: bool,
}

impl BufferDesc {
    /// The memory location that a buffer of this description is placed in.
    pub open spec fn location_spec(self) -> BufferLocation {
        if self.device_only {
            BufferLocation::GpuOnly
        } else {
            BufferLocation::CpuToGpu
        }
    }

    /// The usage bits that the device handle is created with: the requested
    /// ones plus both transfer directions.
    pub open spec fn create_usage_spec(self) -> u32 {
        self.usage_flags | BUFFER_USAGE_TRANSFER_SRC | BUFFER_USAGE_TRANSFER_DST
    }

    pub fn new() -> (r: Self)
        ensures
            r.usage_flags == 0,
            r.resource_usage == ResourceUsageType::Immutable,
            r.size == 0,
            r.device_only,
    {
        BufferDesc {
            usage_flags: 0,
            resource_usage: ResourceUsageType::Immutable,
            size: 0,
            device_only: true,
        }
    }

    pub fn set_usage_flags(self, usage_flags: u32) -> (r: Self)
        ensures
            r == (BufferDesc { usage_flags, ..self }),
    {
        BufferDesc { usage_flags, ..self }
    }

    pub fn set_resource_usage(self, resource_usage: ResourceUsageType) -> (r: Self)
        ensures
            r == (BufferDesc { resource_usage, ..self }),
    {
        BufferDesc { resource_usage, ..self }
    }

    pub fn set_size(self, size: u32) -> (r: Self)
        ensures
            r == (BufferDesc { size, ..self }),
    {
        BufferDesc { size, ..self }
    }

    pub fn set_device_only(self, device_only: bool) -> (r: Self)
        ensures
            r == (BufferDesc { device_only, ..self }),
    {
        BufferDesc { device_only, ..self }
    }

    /// The memory location that a buffer of this description is placed in.
    pub fn location(&self) -> (r: BufferLocation)
        ensures
            r == self.location_spec(),
    {
        if self.device_only {
            BufferLocation::GpuOnly
        } else {
            BufferLocation::CpuToGpu
        }
    }

    /// The usage bits that the device handle is created with.
    pub fn create_usage_flags(&self) -> (r: u32)
        ensures
            r == self.create_usage_spec(),
            r & self.usage_flags == self.usage_flags,
            r & BUFFER_USAGE_TRANSFER_SRC != 0,
            r & BUFFER_USAGE_TRANSFER_DST != 0,
    {
        let r = self.usage_flags | BUFFER_USAGE_TRANSFER_SRC | BUFFER_USAGE_TRANSFER_DST;
        let u = self.usage_flags;
        assert(r & u == u) by (bit_vector)
            requires
                r == u | 1u32 | 2u32,
        ;
        assert(r & 1u32 != 0 && r & 2u32 != 0) by (bit_vector)
            requires
                r == u | 1u32 | 2u32,
        ;
        r
    }
}

/// Size and alignment that the device asks of the memory behind a handle.
#[derive(Debug, Clone, Copy, PartialEq, Eq, Structural)]
pub struct MemoryRequirements {
    pub size: u64,
    pub alignment: u64,
}

/// A device buffer: its handle, the memory bound to it, the description it
/// was made from, and the bytes the host last wrote into its mapped region.
pub struct Buffer {
    raw: u64,
    allocation: Allocation,
    desc: BufferDesc,
    mapped: Vec<u8>,
}

/// `n` zero bytes.
pub open spec fn zeroes(n: nat) -> Seq<u8> {
    Seq::new(n, |i: int| 0u8)
}

impl Buffer {
    pub closed spec fn raw_spec(&self) -> u64 {
        self.raw
    }

    pub closed spec fn allocation_spec(&self) -> Allocation {
        self.allocation
    }

    pub closed spec fn desc_spec(&self) -> BufferDesc {
        self.desc
    }

    /// The bytes of the host-visible region; empty for device-only memory.
    pub closed spec fn contents(&self) -> Seq<u8> {
        self.mapped@
    }

    pub open spec fn wf(&self) -> bool {
        &&& self.allocation_spec().location == self.desc_spec().location_spec()
        &&& self.contents().len() == if is_host_visible(self.desc_spec().location_spec()) {
            self.desc_spec().size as nat
        } else {
            0
        }
    }

    /// Binds memory of the description's location to the device handle `raw`,
    /// sized and aligned as `requirements` asks. On failure the allocator is
    /// left as it was and no buffer exists.
    pub fn create(
        allocator: &mut MemoryAllocator,
        raw: u64,
        desc: BufferDesc,
        requirements: MemoryRequirements,
    ) -> (r: Result<Buffer, GpuError>)
        requires
            old(allocator).wf(),
            requirements.alignment > 0,
        ensures
            final(allocator).wf(),
            final(allocator).capacity_spec() == old(allocator).capacity_spec(),
            r.is_err() <==> old(allocator).refuses(requirements.size, requirements.alignment),
            match r {
                Ok(b) => {
                    &&& b.wf()
                    &&& b.raw_spec() == raw
                    &&& b.desc_spec() == desc
                    &&& b.allocation_spec().location == desc.location_spec()
                    &&& b.allocation_spec().size == aligned_size(
                        requirements.size as int,
                        requirements.alignment as int,
                    )
                    &&& b.contents() == if is_host_visible(desc.location_spec()) {
                        zeroes(desc.size as nat)
                    } else {
                        Seq::<u8>::empty()
                    }
                    &&& final(allocator).live() == old(allocator).live().push(
                        b.allocation_spec(),
                    )
                },
                Err(e) => e == GpuError::OutOfMemory && *final(allocator) == *old(allocator),
            },
    {
        let location = desc.location();
        let allocation = match allocator.allocate(
            requirements.size,
            requirements.alignment,
            location,
        ) {
            Ok(a) => a,
            Err(e) => return Err(e),
        };
        let mut mapped: Vec<u8> = Vec::new();
        if host_visible(location) {
            let n = desc.size as usize;
            while mapped.len() < n
                invariant
                    mapped@.len() <= n,
                    mapped@ == zeroes(mapped@.len()),
                decreases n - mapped@.len(),
            {
                mapped.push(0u8);
                assert(mapped@ =~= zeroes(mapped@.len()));
            }
        }
        proof {
            if !is_host_visible(location) {
                assert(mapped@ =~= Seq::<u8>::empty());
            }
        }
        Ok(Buffer { raw, allocation, desc, mapped })
    }

    /// Returns the buffer's memory to `allocator`; the buffer is gone
    /// afterwards.
    pub fn destroy(self, allocator: &mut MemoryAllocator) -> (r: Result<(), GpuError>)
        requires
            old(allocator).wf(),
        ensures
            final(allocator).wf(),
            final(allocator).capacity_spec() == old(allocator).capacity_spec(),
            r.is_ok() <==> old(allocator).live().contains(self.allocation_spec()),
            r.is_ok() ==> exists|i: int|
                0 <= i < old(allocator).live().len() && old(allocator).live()[i]
                    == self.allocation_spec() && final(allocator).live() == old(
                    allocator,
                ).live().remove(i),
            r.is_ok() ==> final(allocator).allocated() == old(allocator).allocated()
                - self.allocation_spec().size,
            forall|a: Allocation|
                #[trigger] final(allocator).live().contains(a) <==> old(allocator).live().contains(a)
                    && a != self.allocation_spec(),
            r.is_err() ==> r == Err::<(), GpuError>(GpuError::UnknownAllocation),
            r.is_err() ==> *final(allocator) == *old(allocator),
    {
        allocator.free(self.allocation)
    }

    /// Writes `data` at the start of the host-visible region. Nothing orders
    /// this write against device reads of in-flight submissions: the caller
    /// keeps them apart.
    pub fn copy_data_to_buffer(&mut self, data: &[u8]) -> (r: Result<(), GpuError>)
        requires
            old(self).wf(),
        ensures
            final(self).wf(),
            final(self).raw_spec() == old(self).raw_spec(),
            final(self).desc_spec() == old(self).desc_spec(),
            final(self).allocation_spec() == old(self).allocation_spec(),
            !is_host_visible(old(self).desc_spec().location_spec()) ==> r == Err::<(), GpuError>(
                GpuError::NotHostVisible,
            ),
            is_host_visible(old(self).desc_spec().location_spec()) && data@.len() > old(
                self,
            ).desc_spec().size ==> r == Err::<(), GpuError>(GpuError::DataTooLarge),
            r.is_ok() <==> is_host_visible(old(self).desc_spec().location_spec()) && data@.len()
                <= old(self).desc_spec().size,
            r.is_ok() ==> final(self).contents() == data@ + old(self).contents().subrange(
                data@.len() as int,
                old(self).contents().len() as int,
            ),
            r.is_err() ==> final(self).contents() == old(self).contents(),
    {
        if !host_visible(self.desc.location()) {
            return Err(GpuError::NotHostVisible);
        }
        if data.len() > self.desc.size as usize {
            return Err(GpuError::DataTooLarge);
        }
        let ghost before = self.mapped@;
        let mut i: usize = 0;
        while i < data.len()
            invariant
                self.raw == old(self).raw,
                self.desc == old(self).desc,
                self.allocation == old(self).allocation,
                i <= data@.len(),
                data@.len() <= before.len(),
                self.mapped@.len() == before.len(),
                forall|j: int| 0 <= j < i ==> self.mapped@[j] == data@[j],
                forall|j: int| i <= j < before.len() ==> self.mapped@[j] == before[j],
            decreases data@.len() - i,
        {
            self.mapped.set(i, data[i]);
            i = i + 1;
        }
        assert(self.mapped@ =~= data@ + before.subrange(data@.len() as int, before.len() as int));
        Ok(())
    }

    /// The device handle.
    pub fn raw(&self) -> (r: u64)
        ensures
            r == self.raw_spec(),
    {
        self.raw
    }

    /// The size the buffer was described with.
    pub fn size(&self) -> (r: u32)
        ensures
            r == self.desc_spec().size,
    {
        self.desc.size
    }

    pub fn resource_usage_type(&self) -> (r: ResourceUsageType)
        ensures
            r == self.desc_spec().resource_usage,
    {
        self.desc.resource_usage
    }

    /// The memory region bound to the handle.
    pub fn allocation(&self) -> (r: Allocation)
        ensures
            r == self.allocation_spec(),
    {
        self.allocation
    }

    /// The bytes the host last wrote, as the device reads them in the next
    /// submission.
    pub fn contents_bytes(&self) -> (r: &[u8])
        ensures
            r@ == self.contents(),
    {
        self.mapped.as_slice()
    }
}

/// Creating a buffer and destroying it straight away leaves the allocator
/// holding exactly what it held before, so its total of allocated bytes is
/// unchanged.
pub proof fn lemma_create_destroy_round_trip(
    a0: MemoryAllocator,
    a1: MemoryAllocator,
    a2: MemoryAllocator,
    b: Buffer,
    i: int,
)
    requires
        a0.wf(),
        a1.wf(),
        a2.wf(),
        a1.live() == a0.live().push(b.allocation_spec()),
        0 <= i < a1.live().len(),
        a1.live()[i] == b.allocation_spec(),
        a2.live() == a1.live().remove(i),
    ensures
        a2.live() == a0.live(),
        a2.allocated() == a0.allocated(),
{
    lemma_allocate_free_round_trip(a0, a1, a2, b.allocation_spec(), i);
}

} // verus!
