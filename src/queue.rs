//! A device queue: which operations are reachable in which allocation state,
//! and how the state of each buffer follows the kernel's answers.
//!
//! Each operation that involves the kernel is split around its call. A
//! `prepare_*` method decides, without changing anything, whether the call
//! may be made; the caller makes it; the operation's own method then takes the
//! kernel's answer and commits the transition.
use vstd::prelude::*;
use crate::error::{Error, from_errno, spec_from_errno};
use crate::ioctl::{DQBuffer, QueueType, RawBuffer, RawPlane, RequestBuffers, spec_dequeued};
use crate::memory::MemoryType;
use crate::qbuf::{PendingQueue, QBuffer, QueueError};
use crate::tracker::{
    BufferState, all_free, count_queued, free_states, lemma_all_free_count, lemma_count_le_len,
    lemma_count_update, lemma_handles_len, lemma_queued_indices_count, queued_handles,
    queued_indices, replace_state,
};

verus! {

/// The buffers of an allocated queue and the state of each.
struct BuffersAllocated<B> {
    memory: MemoryType,
    num_planes: usize,
    buffers_state: Vec<BufferState<B>>,
    num_queued_buffers: usize,
}

impl<B> BuffersAllocated<B> {
    spec fn wf(self) -> bool {
        self.num_queued_buffers == count_queued(self.buffers_state@)
    }

    /// Records that buffer `i` was accepted by the device with `handles`.
    fn mark_queued(&mut self, i: usize, handles: Vec<B>)
        requires
            old(self).wf(),
            i < old(self).buffers_state@.len(),
            old(self).buffers_state@[i as int] is Free,
        ensures
            final(self).wf(),
            final(self).buffers_state@ == old(self).buffers_state@.update(
                i as int,
                BufferState::Queued(handles),
            ),
            final(self).num_queued_buffers == old(self).num_queued_buffers + 1,
            final(self).memory == old(self).memory,
            final(self).num_planes == old(self).num_planes,
    {
        let st = BufferState::Queued(handles);
        let ghost gst = st;
        let ghost s0 = self.buffers_state@;
        replace_state(&mut self.buffers_state, i, st);
        // The counter stays below the vector's length, which fits in usize.
        let len = self.buffers_state.len();
        proof {
            lemma_count_update(s0, i as int, gst);
            lemma_count_le_len(self.buffers_state@);
            assert(self.num_queued_buffers < len);
        }
        self.num_queued_buffers = self.num_queued_buffers + 1;
    }

    /// Records that buffer `i` came back, and returns the backing objects it
    /// held.
    fn mark_free(&mut self, i: usize) -> (r: Vec<B>)
        requires
            old(self).wf(),
            i < old(self).buffers_state@.len(),
            old(self).buffers_state@[i as int] is Queued,
        ensures
            final(self).wf(),
            old(self).buffers_state@[i as int] == BufferState::Queued(r),
            final(self).buffers_state@ == old(self).buffers_state@.update(i as int, BufferState::Free),
            final(self).num_queued_buffers == old(self).num_queued_buffers - 1,
            final(self).memory == old(self).memory,
            final(self).num_planes == old(self).num_planes,
    {
        let ghost s0 = self.buffers_state@;
        let st = replace_state(&mut self.buffers_state, i, BufferState::Free);
        proof {
            lemma_count_update(s0, i as int, BufferState::Free);
        }
        self.num_queued_buffers = self.num_queued_buffers - 1;
        match st {
            BufferState::Queued(h) => h,
            BufferState::Free => {
                proof {
                    assert(false);
                }
                Vec::new()
            },
        }
    }

    /// Sets every buffer free, and returns the backing objects held by the
    /// queued ones, in index order.
    fn release_all(&mut self) -> (r: Vec<Vec<B>>)
        requires
            old(self).wf(),
        ensures
            final(self).wf(),
            r@ == queued_handles(old(self).buffers_state@),
            final(self).buffers_state@.len() == old(self).buffers_state@.len(),
            all_free(final(self).buffers_state@),
            final(self).num_queued_buffers == 0,
            final(self).memory == old(self).memory,
            final(self).num_planes == old(self).num_planes,
    {
        let ghost s0 = self.buffers_state@;
        let ghost memory = self.memory;
        let ghost num_planes = self.num_planes;
        let n = self.buffers_state.len();
        let mut out: Vec<Vec<B>> = Vec::new();
        let mut i: usize = 0;
        while i < n
            invariant
                n == s0.len(),
                self.buffers_state@.len() == n,
                i <= n,
                self.memory == memory,
                self.num_planes == num_planes,
                forall|j: int| 0 <= j < i ==> #[trigger] self.buffers_state@[j] is Free,
                forall|j: int| i <= j < n ==> #[trigger] self.buffers_state@[j] == s0[j],
                out@ == queued_handles(s0.subrange(0, i as int)),
            decreases n - i,
        {
            let st = replace_state(&mut self.buffers_state, i, BufferState::Free);
            proof {
                assert(s0.subrange(0, i as int + 1).drop_last() =~= s0.subrange(0, i as int));
            }
            match st {
                BufferState::Queued(h) => out.push(h),
                BufferState::Free => {},
            }
            i = i + 1;
        }
        self.num_queued_buffers = 0;
        proof {
            assert(s0.subrange(0, n as int) =~= s0);
            lemma_all_free_count(self.buffers_state@);
        }
        out
    }
}

/// Allocation phase of a queue.
enum AllocationState<B> {
    /// No buffers: only allocation is possible.
    Free,
    /// Buffers of one memory type, fixed until deallocation.
    Allocated(BuffersAllocated<B>),
}

/// One queue of a device (output or capture) and the buffers allocated on it.
/// `B` is what backs a plane while its buffer is with the device: the
/// caller's object for user memory, `()` for driver-owned memory.
pub struct Queue<B> {
    queue_type: QueueType,
    streaming: bool,
    state: AllocationState<B>,
}

impl<B> Queue<B> {
    pub closed spec fn spec_queue_type(self) -> QueueType {
        self.queue_type
    }

    pub closed spec fn spec_streaming(self) -> bool {
        self.streaming
    }

    pub closed spec fn spec_is_allocated(self) -> bool {
        self.state is Allocated
    }

    /// The memory type of the allocated buffers (meaningless while free).
    pub closed spec fn spec_memory(self) -> MemoryType {
        match self.state {
            AllocationState::Allocated(a) => a.memory,
            AllocationState::Free => MemoryType::Mmap,
        }
    }

    /// The number of planes of each buffer (0 while free).
    pub closed spec fn spec_num_planes(self) -> usize {
        match self.state {
            AllocationState::Allocated(a) => a.num_planes,
            AllocationState::Free => 0,
        }
    }

    /// The state of each buffer, by index (empty while free).
    pub closed spec fn spec_states(self) -> Seq<BufferState<B>> {
        match self.state {
            AllocationState::Allocated(a) => a.buffers_state@,
            AllocationState::Free => seq![],
        }
    }

    /// The counter of queued buffers.
    pub closed spec fn spec_num_queued(self) -> nat {
        match self.state {
            AllocationState::Allocated(a) => a.num_queued_buffers as nat,
            AllocationState::Free => 0,
        }
    }

    /// The counter of queued buffers agrees with their states.
    pub closed spec fn wf(self) -> bool {
        match self.state {
            AllocationState::Allocated(a) => a.wf(),
            AllocationState::Free => true,
        }
    }

    pub open spec fn spec_is_free_at(self, i: int) -> bool {
        0 <= i < self.spec_states().len() && self.spec_states()[i] is Free
    }

    pub open spec fn spec_is_queued_at(self, i: int) -> bool {
        0 <= i < self.spec_states().len() && self.spec_states()[i] is Queued
    }

    /// Everything but the buffers' states is as in `other`.
    pub open spec fn same_setup(self, other: Self) -> bool {
        &&& self.spec_queue_type() == other.spec_queue_type()
        &&& self.spec_streaming() == other.spec_streaming()
        &&& self.spec_is_allocated() == other.spec_is_allocated()
        &&& self.spec_memory() == other.spec_memory()
        &&& self.spec_num_planes() == other.spec_num_planes()
    }

    /// `new` is `old` with buffer `i` queued, holding `handles`.
    pub open spec fn committed(old: Self, new: Self, i: int, handles: Seq<B>) -> bool {
        &&& new.same_setup(old)
        &&& new.spec_states().len() == old.spec_states().len()
        &&& (new.spec_states()[i] matches BufferState::Queued(h) && h@ == handles)
        &&& forall|j: int|
            0 <= j < old.spec_states().len() && j != i ==> #[trigger] new.spec_states()[j]
                == old.spec_states()[j]
        &&& new.spec_num_queued() == old.spec_num_queued() + 1
    }

    /// `new` is `old` with queued buffer `i` free again, its `handles` given back.
    pub open spec fn released(old: Self, new: Self, i: int, handles: Vec<B>) -> bool {
        &&& new.same_setup(old)
        &&& old.spec_states()[i] == BufferState::Queued(handles)
        &&& new.spec_states() == old.spec_states().update(i, BufferState::Free)
        &&& new.spec_num_queued() == old.spec_num_queued() - 1
    }

    /// Whether buffers may be deallocated now, and with which memory type.
    pub open spec fn spec_deallocate_check(self) -> Result<MemoryType, Error> {
        if !self.spec_is_allocated() {
            Err(Error::NotAllocated)
        } else if self.spec_streaming() || self.spec_num_queued() > 0 {
            Err(Error::BuffersStillInUse)
        } else {
            Ok(self.spec_memory())
        }
    }

    /// Whether a buffer may be dequeued now.
    pub open spec fn spec_dequeue_check(self) -> Result<(), Error> {
        if !self.spec_is_allocated() {
            Err(Error::NotAllocated)
        } else if self.spec_num_queued() == 0 {
            Err(Error::NoBuffersQueued)
        } else {
            Ok(())
        }
    }

    /// The plane array the dequeue call is decoded with.
    pub open spec fn spec_dequeue_planes(self, planes: Seq<RawPlane>) -> Option<Seq<RawPlane>> {
        if self.spec_queue_type().spec_is_multi_planar() {
            Some(planes)
        } else {
            None
        }
    }

    /// A queue without buffers.
    pub fn new(queue_type: QueueType) -> (r: Queue<B>)
        ensures
            r.wf(),
            r.spec_queue_type() == queue_type,
            !r.spec_streaming(),
            !r.spec_is_allocated(),
            r.spec_states().len() == 0,
            r.spec_num_queued() == 0,
    {
        Queue { queue_type, streaming: false, state: AllocationState::Free }
    }

    pub fn queue_type(&self) -> (r: QueueType)
        ensures
            r == self.spec_queue_type(),
    {
        self.queue_type
    }

    pub fn is_streaming(&self) -> (r: bool)
        ensures
            r == self.spec_streaming(),
    {
        self.streaming
    }

    pub fn is_allocated(&self) -> (r: bool)
        ensures
            r == self.spec_is_allocated(),
    {
        match &self.state {
            AllocationState::Allocated(_) => true,
            AllocationState::Free => false,
        }
    }

    /// The memory type of the allocated buffers, if any.
    pub fn memory_type(&self) -> (r: Option<MemoryType>)
        ensures
            r == if self.spec_is_allocated() {
                Some(self.spec_memory())
            } else {
                None
            },
    {
        match &self.state {
            AllocationState::Allocated(a) => Some(a.memory),
            AllocationState::Free => None,
        }
    }

    /// The number of allocated buffers.
    pub fn num_buffers(&self) -> (r: usize)
        ensures
            r == self.spec_states().len(),
    {
        match &self.state {
            AllocationState::Allocated(a) => a.buffers_state.len(),
            AllocationState::Free => 0,
        }
    }

    /// The number of buffers currently with the device.
    pub fn num_queued_buffers(&self) -> (r: usize)
        ensures
            r == self.spec_num_queued(),
    {
        match &self.state {
            AllocationState::Allocated(a) => a.num_queued_buffers,
            AllocationState::Free => 0,
        }
    }

    /// Whether buffer `index` exists and is free.
    pub fn is_buffer_free(&self, index: usize) -> (r: bool)
        ensures
            r == self.spec_is_free_at(index as int),
    {
        match &self.state {
            AllocationState::Allocated(a) => {
                if index < a.buffers_state.len() {
                    match &a.buffers_state[index] {
                        BufferState::Free => true,
                        BufferState::Queued(_) => false,
                    }
                } else {
                    false
                }
            },
            AllocationState::Free => false,
        }
    }

    /// Whether buffer `index` exists and is with the device.
    pub fn is_buffer_queued(&self, index: usize) -> (r: bool)
        ensures
            r == self.spec_is_queued_at(index as int),
    {
        match &self.state {
            AllocationState::Allocated(a) => {
                if index < a.buffers_state.len() {
                    match &a.buffers_state[index] {
                        BufferState::Free => false,
                        BufferState::Queued(_) => true,
                    }
                } else {
                    false
                }
            },
            AllocationState::Free => false,
        }
    }

    /// Decides whether `count` buffers may be requested: `Ok(true)` when the
    /// request-buffers call is to be made, `Ok(false)` when there is nothing
    /// to ask (no buffers wanted).
    pub fn prepare_allocate(&self, count: u32) -> (r: Result<bool, Error>)
        ensures
            r == if self.spec_is_allocated() {
                Err(Error::AlreadyAllocated)
            } else {
                Ok(count > 0)
            },
    {
        if self.is_allocated() {
            Err(Error::AlreadyAllocated)
        } else {
            Ok(count > 0)
        }
    }

    /// Allocates buffers of `memory` with `num_planes` planes each, given the
    /// device's `reply` to a request for `count` of them. Returns how many the
    /// device created; a request for none changes nothing.
    pub fn allocate(
        &mut self,
        memory: MemoryType,
        num_planes: usize,
        count: u32,
        reply: Result<RequestBuffers, i32>,
    ) -> (r: Result<usize, Error>)
        requires
            old(self).wf(),
        ensures
            final(self).wf(),
            old(self).spec_is_allocated() ==> r == Err::<usize, Error>(Error::AlreadyAllocated)
                && *final(self) == *old(self),
            !old(self).spec_is_allocated() && count == 0 ==> r == Ok::<usize, Error>(0) && *final(self) == *old(self),
            reply matches Err(c) ==> (!old(self).spec_is_allocated() && count > 0 ==> r == Err::<
                usize,
                Error,
            >(Error::DeviceRejected(c)) && *final(self) == *old(self)),
            reply matches Ok(rb) ==> (!old(self).spec_is_allocated() && count > 0 ==> {
                &&& r == Ok::<usize, Error>(rb.count as usize)
                &&& final(self).spec_is_allocated()
                &&& final(self).spec_memory() == memory
                &&& final(self).spec_num_planes() == num_planes
                &&& final(self).spec_states().len() == rb.count
                &&& all_free(final(self).spec_states())
                &&& final(self).spec_num_queued() == 0
                &&& final(self).spec_queue_type() == old(self).spec_queue_type()
                &&& final(self).spec_streaming() == old(self).spec_streaming()
            }),
    {
        if self.is_allocated() {
            return Err(Error::AlreadyAllocated);
        }
        if count == 0 {
            return Ok(0);
        }
        match reply {
            Err(c) => Err(Error::DeviceRejected(c)),
            Ok(rb) => {
                let n = rb.count as usize;
                let buffers_state = free_states(n);
                proof {
                    lemma_all_free_count(buffers_state@);
                }
                self.state = AllocationState::Allocated(
                    BuffersAllocated { memory, num_planes, buffers_state, num_queued_buffers: 0 },
                );
                Ok(n)
            },
        }
    }

    /// Decides whether the buffers may be released: returns the memory type
    /// that the request-buffers call for zero buffers must name.
    pub fn prepare_deallocate(&self) -> (r: Result<MemoryType, Error>)
        ensures
            r == self.spec_deallocate_check(),
    {
        match &self.state {
            AllocationState::Free => Err(Error::NotAllocated),
            AllocationState::Allocated(a) => {
                if self.streaming || a.num_queued_buffers > 0 {
                    Err(Error::BuffersStillInUse)
                } else {
                    Ok(a.memory)
                }
            },
        }
    }

    /// Releases the buffers, given the device's `reply` to the request for
    /// zero buffers.
    pub fn deallocate(&mut self, reply: Result<(), i32>) -> (r: Result<(), Error>)
        requires
            old(self).wf(),
        ensures
            final(self).wf(),
            old(self).spec_deallocate_check() matches Err(e) ==> r == Err::<(), Error>(e) && *final(self) == *old(self),
            reply matches Err(c) ==> (old(self).spec_deallocate_check() is Ok ==> r == Err::<
                (),
                Error,
            >(Error::DeviceRejected(c)) && *final(self) == *old(self)),
            reply is Ok && old(self).spec_deallocate_check() is Ok ==> {
                &&& r == Ok::<(), Error>(())
                &&& !final(self).spec_is_allocated()
                &&& final(self).spec_queue_type() == old(self).spec_queue_type()
                &&& final(self).spec_streaming() == old(self).spec_streaming()
            },
    {
        match self.prepare_deallocate() {
            Err(e) => return Err(e),
            Ok(_) => {},
        }
        match reply {
            Err(c) => Err(Error::DeviceRejected(c)),
            Ok(()) => {
                self.state = AllocationState::Free;
                Ok(())
            },
        }
    }

    /// A builder for a free buffer: buffer `index` if given, else the free
    /// buffer with the lowest index. Nothing is recorded until the builder is
    /// submitted, so a builder that is dropped leaves its buffer free.
    pub fn get_buffer(&self, index: Option<usize>) -> (r: Result<QBuffer<B>, Error>)
        ensures
            !self.spec_is_allocated() ==> (r matches Err(e) && e == Error::NotAllocated),
            self.spec_is_allocated() ==> match r {
                Ok(b) => {
                    &&& self.spec_is_free_at(b.spec_index() as int)
                    &&& b.spec_num_planes() == self.spec_num_planes()
                    &&& b.spec_planes().len() == 0
                    &&& b.spec_handles().len() == 0
                    &&& match index {
                        Some(i) => b.spec_index() == i,
                        None => forall|j: int|
                            0 <= j < b.spec_index() ==> !self.spec_is_free_at(j),
                    }
                },
                Err(e) => {
                    &&& e == Error::NoFreeBuffer
                    &&& match index {
                        Some(i) => !self.spec_is_free_at(i as int),
                        None => forall|j: int| 0 <= j < self.spec_states().len() ==> !self.spec_is_free_at(j),
                    }
                },
            },
    {
        match &self.state {
            AllocationState::Free => Err(Error::NotAllocated),
            AllocationState::Allocated(a) => match index {
                Some(i) => {
                    if self.is_buffer_free(i) {
                        Ok(QBuffer::new(i, a.num_planes))
                    } else {
                        Err(Error::NoFreeBuffer)
                    }
                },
                None => {
                    let n = a.buffers_state.len();
                    let mut i: usize = 0;
                    while i < n
                        invariant
                            self.state == AllocationState::Allocated(*a),
                            index is None,
                            self.spec_is_allocated(),
                            a.num_planes == self.spec_num_planes(),
                            n == self.spec_states().len(),
                            i <= n,
                            forall|j: int| 0 <= j < i ==> !self.spec_is_free_at(j),
                        decreases n - i,
                    {
                        if self.is_buffer_free(i) {
                            return Ok(QBuffer::new(i, a.num_planes));
                        }
                        i = i + 1;
                    }
                    Err(Error::NoFreeBuffer)
                },
            },
        }
    }

    /// Records the device's `reply` to the queue call for `pending`. On
    /// success the buffer is queued and holds the backing objects until it is
    /// dequeued or the queue stopped; on failure they are handed back.
    pub fn commit_queued(&mut self, pending: PendingQueue<B>, reply: Result<(), i32>) -> (r: Result<
        (),
        QueueError<B>,
    >)
        requires
            old(self).wf(),
        ensures
            final(self).wf(),
            r matches Err(e) ==> e.plane_handles@ == pending.spec_handles() && *final(self) == *old(self),
            !old(self).spec_is_allocated() ==> (r matches Err(e) && e.error == Error::NotAllocated),
            reply matches Err(c) ==> (old(self).spec_is_allocated() ==> (r matches Err(e) && e.error
                == Error::DeviceRejected(c))),
            reply is Ok && old(self).spec_is_allocated() && !old(self).spec_is_free_at(
                pending.spec_index() as int,
            ) ==> (r matches Err(e) && e.error == Error::NoFreeBuffer),
            reply is Ok && old(self).spec_is_free_at(pending.spec_index() as int) ==> r is Ok
                && Self::committed(
                *old(self),
                *final(self),
                pending.spec_index() as int,
                pending.spec_handles(),
            ),
    {
        let index = pending.index();
        if !self.is_allocated() {
            return Err(pending.into_error(Error::NotAllocated));
        }
        match reply {
            Err(c) => return Err(pending.into_error(Error::DeviceRejected(c))),
            Ok(()) => {},
        }
        if !self.is_buffer_free(index) {
            return Err(pending.into_error(Error::NoFreeBuffer));
        }
        match &mut self.state {
            AllocationState::Allocated(a) => {
                a.mark_queued(index, pending.into_handles());
                Ok(())
            },
            AllocationState::Free => Ok(()),
        }
    }

    /// Decides whether the dequeue call may be made. With nothing queued the
    /// kernel would wait forever, so it must not be.
    pub fn prepare_dequeue(&self) -> (r: Result<(), Error>)
        ensures
            r == self.spec_dequeue_check(),
    {
        match &self.state {
            AllocationState::Free => Err(Error::NotAllocated),
            AllocationState::Allocated(a) => {
                if a.num_queued_buffers == 0 {
                    Err(Error::NoBuffersQueued)
                } else {
                    Ok(())
                }
            },
        }
    }

    /// Records the device's `reply` to the dequeue call (with `planes`, the
    /// request's plane array, on a multi-planar queue). Returns the decoded
    /// buffer and the backing objects it held; its index is free again.
    pub fn dequeue(&mut self, reply: Result<RawBuffer, i32>, planes: &Vec<RawPlane>) -> (r: Result<
        (DQBuffer, Vec<B>),
        Error,
    >)
        requires
            old(self).wf(),
        ensures
            final(self).wf(),
            r is Err ==> *final(self) == *old(self),
            old(self).spec_dequeue_check() matches Err(e) ==> (r matches Err(e2) && e2 == e),
            reply matches Err(c) ==> (old(self).spec_dequeue_check() is Ok ==> (r matches Err(e)
                && e == spec_from_errno(c))),
            reply matches Ok(raw) ==> (old(self).spec_dequeue_check() is Ok && !old(self).spec_is_queued_at(raw.index as int) ==> (r matches Err(e) && e
                == Error::InvalidBufferIndex(raw.index))),
            reply matches Ok(raw) ==> (old(self).spec_dequeue_check() is Ok && old(self).spec_is_queued_at(raw.index as int) ==> (r matches Ok(p) && spec_dequeued(
                p.0,
                raw,
                old(self).spec_dequeue_planes(planes@),
            ) && Self::released(*old(self), *final(self), raw.index as int, p.1))),
    {
        match self.prepare_dequeue() {
            Err(e) => return Err(e),
            Ok(()) => {},
        }
        let raw = match reply {
            Err(c) => return Err(from_errno(c)),
            Ok(raw) => raw,
        };
        let index = raw.index as usize;
        if !self.is_buffer_queued(index) {
            return Err(Error::InvalidBufferIndex(raw.index));
        }
        let dq = if self.queue_type.is_multi_planar() {
            DQBuffer::from_raw(&raw, Some(planes))
        } else {
            DQBuffer::from_raw(&raw, None)
        };
        match &mut self.state {
            AllocationState::Allocated(a) => {
                let handles = a.mark_free(index);
                Ok((dq, handles))
            },
            AllocationState::Free => Err(Error::NotAllocated),
        }
    }

    /// Records the device's `reply` to the stream-on call.
    pub fn stream_on(&mut self, reply: Result<(), i32>) -> (r: Result<(), Error>)
        requires
            old(self).wf(),
        ensures
            final(self).wf(),
            reply matches Err(c) ==> r == Err::<(), Error>(Error::DeviceRejected(c)) && *final(self)
                == *old(self),
            reply is Ok ==> r is Ok && final(self).spec_streaming() && final(self).spec_states()
                == old(self).spec_states() && final(self).spec_num_queued() == old(self).spec_num_queued() && final(self).spec_queue_type() == old(self).spec_queue_type()
                && final(self).spec_is_allocated() == old(self).spec_is_allocated() && final(self).spec_memory() == old(self).spec_memory() && final(self).spec_num_planes() == old(self).spec_num_planes(),
    {
        match reply {
            Err(c) => Err(Error::DeviceRejected(c)),
            Ok(()) => {
                self.streaming = true;
                Ok(())
            },
        }
    }

    /// Records the device's `reply` to the stream-off call. The device
    /// completes nothing after it, so every queued buffer is free again and the
    /// backing objects they held are handed back, in index order.
    pub fn stream_off(&mut self, reply: Result<(), i32>) -> (r: Result<Vec<Vec<B>>, Error>)
        requires
            old(self).wf(),
        ensures
            final(self).wf(),
            reply matches Err(c) ==> (r matches Err(e) && e == Error::DeviceRejected(c)) && *final(self) == *old(self),
            reply is Ok ==> {
                &&& r matches Ok(hs) && hs@ == queued_handles(old(self).spec_states())
                &&& !final(self).spec_streaming()
                &&& final(self).spec_states().len() == old(self).spec_states().len()
                &&& all_free(final(self).spec_states())
                &&& final(self).spec_num_queued() == 0
                &&& final(self).spec_queue_type() == old(self).spec_queue_type()
                &&& final(self).spec_is_allocated() == old(self).spec_is_allocated()
                &&& final(self).spec_memory() == old(self).spec_memory()
                &&& final(self).spec_num_planes() == old(self).spec_num_planes()
            },
    {
        match reply {
            Err(c) => return Err(Error::DeviceRejected(c)),
            Ok(()) => {},
        }
        self.streaming = false;
        match &mut self.state {
            AllocationState::Allocated(a) => Ok(a.release_all()),
            AllocationState::Free => Ok(Vec::new()),
        }
    }
}

/// The queued-buffer counter counts distinct indices: however buffers were
/// obtained and submitted, no index is queued twice.
pub proof fn lemma_no_index_queued_twice<B>(q: Queue<B>)
    requires
        q.wf(),
    ensures
        queued_indices(q.spec_states()).finite(),
        queued_indices(q.spec_states()).len() == q.spec_num_queued(),
{
    lemma_queued_indices_count(q.spec_states());
}

/// Stopping the stream hands back the backing objects of each queued buffer
/// exactly once: one entry per queued buffer, in index order.
pub proof fn lemma_stream_off_returns_each_once<B>(q: Queue<B>)
    requires
        q.wf(),
    ensures
        queued_handles(q.spec_states()).len() == q.spec_num_queued(),
{
    lemma_handles_len(q.spec_states());
}

/// Queuing a free buffer and dequeuing it gives back exactly the backing
/// objects it was queued with, and leaves the buffers as they were.
pub proof fn lemma_queue_dequeue_round_trip<B>(
    q0: Queue<B>,
    q1: Queue<B>,
    q2: Queue<B>,
    i: int,
    handles: Seq<B>,
    returned: Vec<B>,
)
    requires
        q0.spec_is_free_at(i),
        Queue::committed(q0, q1, i, handles),
        Queue::released(q1, q2, i, returned),
    ensures
        returned@ == handles,
        q2.spec_states() == q0.spec_states(),
        q2.spec_num_queued() == q0.spec_num_queued(),
        q2.same_setup(q0),
{
    assert(q2.spec_states() =~= q0.spec_states());
}

} // verus!
