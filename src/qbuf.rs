//! The staged protocol that describes a buffer fully before it is queued.
use vstd::prelude::*;
use crate::error::Error;
use crate::ioctl::QBufPlane;
use crate::memory::PlaneHandle;

verus! {

/// Error that can occur when queuing a buffer: the error itself, and the
/// backing objects of the planes, handed back to the caller.
pub struct QueueError<B> {
    pub error: Error,
    pub plane_handles: Vec<B>,
}

/// Describes one plane of a buffer about to be queued: a handle the kernel can
/// reach the memory by, and the object that owns that memory, kept until the
/// buffer comes back.
pub struct Plane<B> {
    backing: B,
    plane: QBufPlane,
}

impl<B> Plane<B> {
    pub closed spec fn spec_backing(self) -> B {
        self.backing
    }

    pub closed spec fn spec_plane(self) -> QBufPlane {
        self.plane
    }

    /// A plane for a capture queue: only the memory for the driver to write into.
    pub fn cap(backing: B, handle: PlaneHandle) -> (r: Plane<B>)
        ensures
            r.spec_backing() == backing,
            r.spec_plane() == (QBufPlane { bytesused: 0, data_offset: 0, handle }),
    {
        Plane { backing, plane: QBufPlane { bytesused: 0, data_offset: 0, handle } }
    }

    /// A plane for an output queue: the memory, and how many bytes of it hold
    /// data. The kernel interface carries the count on 32 bits.
    pub fn out(backing: B, handle: PlaneHandle, bytes_used: usize) -> (r: Plane<B>)
        ensures
            r.spec_backing() == backing,
            r.spec_plane() == (QBufPlane { bytesused: bytes_used as u32, data_offset: 0, handle }),
    {
        Plane { backing, plane: QBufPlane { bytesused: bytes_used as u32, data_offset: 0, handle } }
    }

    /// Sets the offset in the plane at which the data starts (multi-planar
    /// queues only). The kernel interface carries it on 32 bits.
    pub fn set_data_offset(self, data_offset: usize) -> (r: Plane<B>)
        ensures
            r.spec_backing() == self.spec_backing(),
            r.spec_plane() == (QBufPlane { data_offset: data_offset as u32, ..self.spec_plane() }),
    {
        let Plane { backing, plane } = self;
        Plane { backing, plane: QBufPlane { data_offset: data_offset as u32, ..plane } }
    }
}

/// A free buffer obtained from `Queue::get_buffer`, being given its planes.
///
/// Nothing is recorded on the queue until the buffer is submitted: a builder
/// that is dropped leaves its index free.
pub struct QBuffer<B> {
    index: usize,
    num_planes: usize,
    planes: Vec<QBufPlane>,
    plane_handles: Vec<B>,
}

impl<B> QBuffer<B> {
    pub closed spec fn spec_index(self) -> usize {
        self.index
    }

    pub closed spec fn spec_num_planes(self) -> usize {
        self.num_planes
    }

    pub closed spec fn spec_planes(self) -> Seq<QBufPlane> {
        self.planes@
    }

    pub closed spec fn spec_handles(self) -> Seq<B> {
        self.plane_handles@
    }

    pub(crate) fn new(index: usize, num_planes: usize) -> (r: QBuffer<B>)
        ensures
            r.spec_index() == index,
            r.spec_num_planes() == num_planes,
            r.spec_planes().len() == 0,
            r.spec_handles().len() == 0,
    {
        QBuffer { index, num_planes, planes: Vec::new(), plane_handles: Vec::new() }
    }

    /// The index of this buffer in its queue.
    pub fn index(&self) -> (r: usize)
        ensures
            r == self.spec_index(),
    {
        self.index
    }

    /// The number of planes that must be given before the buffer can be queued.
    pub fn num_expected_planes(&self) -> (r: usize)
        ensures
            r == self.spec_num_planes(),
    {
        self.num_planes
    }

    /// The number of planes given so far.
    pub fn num_set_planes(&self) -> (r: usize)
        ensures
            r == self.spec_planes().len(),
    {
        self.planes.len()
    }

    /// Gives the next plane of this buffer.
    pub fn add_plane(self, plane: Plane<B>) -> (r: QBuffer<B>)
        ensures
            r.spec_index() == self.spec_index(),
            r.spec_num_planes() == self.spec_num_planes(),
            r.spec_planes() == self.spec_planes().push(plane.spec_plane()),
            r.spec_handles() == self.spec_handles().push(plane.spec_backing()),
    {
        let QBuffer { index, num_planes, mut planes, mut plane_handles } = self;
        let Plane { backing, plane } = plane;
        planes.push(plane);
        plane_handles.push(backing);
        QBuffer { index, num_planes, planes, plane_handles }
    }

    /// Checks that exactly the expected number of planes was given. If so,
    /// returns the queue request to hand to the device; else hands the backing
    /// objects back with the error. Nothing is asked of the device and no
    /// state changes either way: `Queue::commit_queued` records the outcome.
    pub fn queue(self) -> (r: Result<PendingQueue<B>, QueueError<B>>)
        ensures
            self.spec_planes().len() < self.spec_num_planes() ==> (r matches Err(e) && e.error
                == Error::TooFewPlanes && e.plane_handles@ == self.spec_handles()),
            self.spec_planes().len() > self.spec_num_planes() ==> (r matches Err(e) && e.error
                == Error::TooManyPlanes && e.plane_handles@ == self.spec_handles()),
            self.spec_planes().len() == self.spec_num_planes() ==> (r matches Ok(p)
                && p.spec_index() == self.spec_index() && p.spec_planes() == self.spec_planes()
                && p.spec_handles() == self.spec_handles()),
    {
        let QBuffer { index, num_planes, planes, plane_handles } = self;
        if planes.len() < num_planes {
            Err(QueueError { error: Error::TooFewPlanes, plane_handles })
        } else if planes.len() > num_planes {
            Err(QueueError { error: Error::TooManyPlanes, plane_handles })
        } else {
            Ok(PendingQueue { index, planes, plane_handles })
        }
    }
}

impl QBuffer<()> {
    /// For capture buffers of driver-owned memory, the planes carry nothing
    /// the caller must supply: adds empty planes up to the expected number and
    /// submits the buffer.
    pub fn auto_queue(self) -> (r: Result<PendingQueue<()>, QueueError<()>>)
        ensures
            self.spec_planes().len() > self.spec_num_planes() ==> (r matches Err(e) && e.error
                == Error::TooManyPlanes),
            self.spec_planes().len() <= self.spec_num_planes() ==> (r matches Ok(p)
                && p.spec_index() == self.spec_index()
                && p.spec_planes().len() == self.spec_num_planes()
                && p.spec_planes().subrange(0, self.spec_planes().len() as int) == self.spec_planes()
                && (forall|k: int|
                    self.spec_planes().len() <= k < self.spec_num_planes() ==> #[trigger] p.spec_planes()[k]
                        == (QBufPlane { bytesused: 0, data_offset: 0, handle: PlaneHandle::Mmap }))),
    {
        let ghost start = self.spec_planes();
        let mut b = self;
        while b.num_set_planes() < b.num_expected_planes()
            invariant
                b.spec_index() == self.spec_index(),
                b.spec_num_planes() == self.spec_num_planes(),
                start.len() <= b.spec_planes().len(),
                start.len() <= self.spec_num_planes() ==> b.spec_planes().len() <= self.spec_num_planes(),
                b.spec_planes().subrange(0, start.len() as int) == start,
                forall|k: int|
                    start.len() <= k < b.spec_planes().len() ==> #[trigger] b.spec_planes()[k]
                        == (QBufPlane { bytesused: 0, data_offset: 0, handle: PlaneHandle::Mmap }),
            decreases b.spec_num_planes() - b.spec_planes().len(),
        {
            let ghost before = b.spec_planes();
            b = b.add_plane(Plane::cap((), PlaneHandle::Mmap));
            assert(b.spec_planes().subrange(0, start.len() as int) =~= before.subrange(0, start.len() as int));
        }
        b.queue()
    }
}

/// A buffer whose planes match its format, to be handed to the device's
/// queue call. Only `QBuffer::queue` makes one.
pub struct PendingQueue<B> {
    index: usize,
    planes: Vec<QBufPlane>,
    plane_handles: Vec<B>,
}

impl<B> PendingQueue<B> {
    pub closed spec fn spec_index(self) -> usize {
        self.index
    }

    pub closed spec fn spec_planes(self) -> Seq<QBufPlane> {
        self.planes@
    }

    pub closed spec fn spec_handles(self) -> Seq<B> {
        self.plane_handles@
    }

    /// The index of the buffer to queue.
    pub fn index(&self) -> (r: usize)
        ensures
            r == self.spec_index(),
    {
        self.index
    }

    /// The planes to describe to the device.
    pub fn planes(&self) -> (r: &Vec<QBufPlane>)
        ensures
            r@ == self.spec_planes(),
    {
        &self.planes
    }

    /// Gives up the submission, returning the backing objects with `error`.
    pub fn into_error(self, error: Error) -> (r: QueueError<B>)
        ensures
            r.error == error,
            r.plane_handles@ == self.spec_handles(),
    {
        QueueError { error, plane_handles: self.plane_handles }
    }

    /// The backing objects of the planes, in plane order.
    pub fn into_handles(self) -> (r: Vec<B>)
        ensures
            r@ == self.spec_handles(),
    {
        self.plane_handles
    }
}

} // verus!
