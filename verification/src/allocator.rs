//! Device memory bookkeeping: memory type selection by intersecting the
//! resource's compatible-type mask with the requested property flags, and
//! the issuing of opaque handles for created resources. Every allocation
//! backs exactly one buffer or image, bound at offset zero.

use vstd::prelude::*;

verus! {

/// Errors of the allocation path.
#[derive(Clone, Copy, Debug, PartialEq, Eq, Structural)]
pub enum AllocError {
    NoSuitableMemoryType,
}

/// Issues opaque names for GPU objects. Handles are names only: the
/// caller outside the library pairs each with the real driver object.
pub struct HandleAllocator {
    pub next: u64,
}

impl HandleAllocator {
    pub fn new() -> (r: HandleAllocator)
        ensures
            r.next == 1,
    {
        HandleAllocator { next: 1 }
    }

    /// Hands out the next name. Once the space is exhausted the same
    /// name repeats; nothing here relies on uniqueness.
    pub fn allocate(&mut self) -> (r: u64)
        ensures
            r == old(self).next,
            final(self).next == if old(self).next < u64::MAX {
                (old(self).next + 1) as u64
            } else {
                u64::MAX
            },
    {
        let r = self.next;
        if self.next < u64::MAX {
            self.next = self.next + 1;
        }
        r
    }
}

/// Memory type `i` can back the resource and has all requested
/// properties.
pub open spec fn mem_type_suitable(
    memory_type_bits: u32,
    properties: u32,
    flags: Seq<u32>,
    i: int,
) -> bool {
    &&& 0 <= i < flags.len()
    &&& memory_type_bits & (1u32 << (i as u32)) != 0
    &&& flags[i] & properties == properties
}

/// Selects the lowest memory type index that the resource's
/// compatible-type mask admits and that carries every requested property
/// flag; fails when no such type exists. `memory_type_flags` holds the
/// property flags of the device's memory types in order.
pub fn get_memory_type_index(
    memory_type_bits: u32,
    properties: u32,
    memory_type_flags: &Vec<u32>,
) -> (r: Result<u32, AllocError>)
    requires
        memory_type_flags@.len() <= 32,
    ensures
        match r {
            Ok(i) => mem_type_suitable(memory_type_bits, properties, memory_type_flags@, i as int)
                && forall|j: int|
                0 <= j < i ==> !mem_type_suitable(memory_type_bits, properties, memory_type_flags@, j),
            Err(e) => e == AllocError::NoSuitableMemoryType && forall|j: int|
                !mem_type_suitable(memory_type_bits, properties, memory_type_flags@, j),
        },
{
    let n = memory_type_flags.len();
    let mut i: usize = 0;
    while i < n
        invariant
            i <= n,
            n == memory_type_flags@.len(),
            n <= 32,
            forall|j: int|
                0 <= j < i ==> !mem_type_suitable(memory_type_bits, properties, memory_type_flags@, j),
        decreases n - i,
    {
        let suitable = memory_type_bits & (1u32 << (i as u32)) != 0;
        let has_props = memory_type_flags[i] & properties == properties;
        if suitable && has_props {
            return Ok(i as u32);
        }
        i = i + 1;
    }
    Err(AllocError::NoSuitableMemoryType)
}

/// A buffer with its dedicated memory allocation.
#[derive(Clone, Copy, Debug, PartialEq, Eq, Structural)]
pub struct AllocatedBuffer {
    pub buffer: u64,
    pub memory: u64,
    pub size: u64,
    pub usage: u32,
    pub memory_type_index: u32,
}

/// Creates one buffer object and one memory allocation bound to it at
/// offset zero, choosing the memory type by mask intersection; fails
/// with `NoSuitableMemoryType` when the device offers no fitting type.
pub fn create_buffer(
    alloc: &mut HandleAllocator,
    size: u64,
    usage: u32,
    memory_type_bits: u32,
    properties: u32,
    memory_type_flags: &Vec<u32>,
) -> (r: Result<AllocatedBuffer, AllocError>)
    requires
        memory_type_flags@.len() <= 32,
    ensures
        match r {
            Ok(b) => {
                &&& mem_type_suitable(
                    memory_type_bits,
                    properties,
                    memory_type_flags@,
                    b.memory_type_index as int,
                )
                &&& b.size == size
                &&& b.usage == usage
            },
            Err(e) => e == AllocError::NoSuitableMemoryType && *final(alloc) == *old(alloc)
                && forall|j: int|
                !mem_type_suitable(memory_type_bits, properties, memory_type_flags@, j),
        },
{
    let memory_type_index = match get_memory_type_index(
        memory_type_bits,
        properties,
        memory_type_flags,
    ) {
        Ok(i) => i,
        Err(e) => {
            return Err(e);
        },
    };
    let buffer = alloc.allocate();
    let memory = alloc.allocate();
    Ok(AllocatedBuffer { buffer, memory, size, usage, memory_type_index })
}

} // verus!
