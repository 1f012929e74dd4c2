//! A safe layer over the V4L2 streaming buffer queue: allocation phases of a
//! queue, the state of each buffer, the staged description of a buffer before
//! it is queued, and the decoding of what the kernel hands back.
use vstd::prelude::*;

pub mod error;
pub mod memory;
pub mod ioctl;
pub mod qbuf;
pub mod tracker;
pub mod queue;

verus! {

} // verus!
