use vstd::prelude::*;

verus! {

/// Error code reported by the kernel when a non-blocking call has nothing to hand back.
pub const EAGAIN: i32 = 11;

/// What can go wrong while driving a buffer queue.
#[derive(Debug, Clone, Copy, PartialEq, Eq, Structural)]
pub enum Error {
    /// The kernel refused the request; carries the OS error code.
    DeviceRejected(i32),
    /// A buffer was submitted with fewer planes than its format has.
    TooFewPlanes,
    /// A buffer was submitted with more planes than its format has.
    TooManyPlanes,
    /// No buffer of the queue is free, or the requested one is not.
    NoFreeBuffer,
    /// Deallocation was attempted while buffers are queued or streaming is on.
    BuffersStillInUse,
    /// A dequeue was attempted while nothing is in flight.
    NoBuffersQueued,
    /// A non-blocking dequeue found no completed buffer.
    WouldBlock,
    /// Buffers were requested on a queue that already holds some.
    AlreadyAllocated,
    /// The operation needs allocated buffers and the queue holds none.
    NotAllocated,
    /// The device handed back an index that is not in flight on this queue.
    InvalidBufferIndex(u32),
}

/// The error that a failed kernel call maps to.
pub open spec fn spec_from_errno(errno: i32) -> Error {
    if errno == EAGAIN {
        Error::WouldBlock
    } else {
        Error::DeviceRejected(errno)
    }
}

/// Maps an OS error code to the error taxonomy: "try again" becomes
/// `WouldBlock`, anything else is a refusal by the device.
pub fn from_errno(errno: i32) -> (r: Error)
    ensures
        r == spec_from_errno(errno),
{
    if errno == EAGAIN {
        Error::WouldBlock
    } else {
        Error::DeviceRejected(errno)
    }
}

} // verus!
