use vstd::prelude::*;

verus! {

/// How the memory behind a queue's buffers is provided.
#[derive(Debug, Clone, Copy, PartialEq, Eq, Structural)]
pub enum MemoryType {
    /// Memory allocated by the driver and mapped into the process.
    Mmap,
    /// Memory allocated by the caller and handed over by address and length.
    UserPtr,
    /// Memory imported from another device through a file descriptor.
    DmaBuf,
}

impl MemoryType {
    /// The value of `enum v4l2_memory` for this memory type.
    pub open spec fn spec_code(self) -> u32 {
        match self {
            MemoryType::Mmap => 1,
            MemoryType::UserPtr => 2,
            MemoryType::DmaBuf => 4,
        }
    }

    pub fn code(&self) -> (r: u32)
        ensures
            r == self.spec_code(),
    {
        match self {
            MemoryType::Mmap => 1,
            MemoryType::UserPtr => 2,
            MemoryType::DmaBuf => 4,
        }
    }
}

/// Handle for a USERPTR plane: the address and length of caller-owned memory.
///
/// Whoever makes one promises that the memory stays alive and unmoved until
/// the buffer it is queued with has been dequeued or the queue stopped.
#[derive(Debug, Clone, Copy, PartialEq, Eq, Structural)]
pub struct UserPtrHandle {
    address: usize,
    length: u32,
}

impl UserPtrHandle {
    pub closed spec fn spec_address(self) -> usize {
        self.address
    }

    pub closed spec fn spec_length(self) -> u32 {
        self.length
    }

    /// Creates a handle for `length` bytes of memory starting at `address`.
    /// The kernel interface carries the length on 32 bits.
    pub fn new(address: usize, length: usize) -> (r: UserPtrHandle)
        ensures
            r.spec_address() == address,
            r.spec_length() == length as u32,
    {
        UserPtrHandle { address, length: length as u32 }
    }

    pub fn address(&self) -> (r: usize)
        ensures
            r == self.spec_address(),
    {
        self.address
    }

    pub fn length(&self) -> (r: u32)
        ensures
            r == self.spec_length(),
    {
        self.length
    }
}

/// What the kernel is given to find the memory of one plane.
#[derive(Debug, Clone, Copy, PartialEq, Eq, Structural)]
pub enum PlaneHandle {
    /// Driver-owned memory: nothing to hand over.
    Mmap,
    /// Caller-owned memory, by address and length.
    UserPtr(UserPtrHandle),
}

impl PlaneHandle {
    pub open spec fn spec_memory_type(self) -> MemoryType {
        match self {
            PlaneHandle::Mmap => MemoryType::Mmap,
            PlaneHandle::UserPtr(_) => MemoryType::UserPtr,
        }
    }

    /// The memory type of the queues that accept this handle.
    pub fn memory_type(&self) -> (r: MemoryType)
        ensures
            r == self.spec_memory_type(),
    {
        match self {
            PlaneHandle::Mmap => MemoryType::Mmap,
            PlaneHandle::UserPtr(_) => MemoryType::UserPtr,
        }
    }
}

} // verus!
