//! Plain-value views of the kernel structures that the buffer-queue requests
//! exchange, and their decoding into typed results.
use vstd::prelude::*;
use crate::error::Error;
use crate::memory::PlaneHandle;

verus! {

/// The queue of a device that a request is about.
#[derive(Debug, Clone, Copy, PartialEq, Eq, Structural)]
pub enum QueueType {
    VideoCapture,
    VideoOutput,
    VideoCaptureMplane,
    VideoOutputMplane,
}

impl QueueType {
    /// The value of `enum v4l2_buf_type` for this queue.
    pub open spec fn spec_code(self) -> u32 {
        match self {
            QueueType::VideoCapture => 1,
            QueueType::VideoOutput => 2,
            QueueType::VideoCaptureMplane => 9,
            QueueType::VideoOutputMplane => 10,
        }
    }

    pub open spec fn spec_is_multi_planar(self) -> bool {
        self is VideoCaptureMplane || self is VideoOutputMplane
    }

    pub open spec fn spec_is_capture(self) -> bool {
        self is VideoCapture || self is VideoCaptureMplane
    }

    pub fn code(&self) -> (r: u32)
        ensures
            r == self.spec_code(),
    {
        match self {
            QueueType::VideoCapture => 1,
            QueueType::VideoOutput => 2,
            QueueType::VideoCaptureMplane => 9,
            QueueType::VideoOutputMplane => 10,
        }
    }

    /// Whether requests on this queue carry a separate array of planes.
    pub fn is_multi_planar(&self) -> (r: bool)
        ensures
            r == self.spec_is_multi_planar(),
    {
        match self {
            QueueType::VideoCaptureMplane | QueueType::VideoOutputMplane => true,
            _ => false,
        }
    }

    /// Whether the device fills the buffers of this queue.
    pub fn is_capture(&self) -> (r: bool)
        ensures
            r == self.spec_is_capture(),
    {
        match self {
            QueueType::VideoCapture | QueueType::VideoCaptureMplane => true,
            _ => false,
        }
    }
}

/// Every flag that `struct v4l2_buffer` defines in its `flags` field.
pub const BUFFER_FLAGS_ALL: u32 = 0x917fff;

/// Flags of a buffer, as set by the kernel on dequeue.
#[derive(Debug, Clone, Copy, PartialEq, Eq, Structural, Default)]
pub struct BufferFlags {
    pub bits: u32,
}

impl BufferFlags {
    pub const MAPPED: u32 = 0x1;
    pub const QUEUED: u32 = 0x2;
    pub const DONE: u32 = 0x4;
    pub const KEYFRAME: u32 = 0x8;
    pub const ERROR: u32 = 0x40;
    pub const LAST: u32 = 0x100000;

    /// Keeps the known flags of `bits` and drops the others.
    pub fn from_bits_truncate(bits: u32) -> (r: BufferFlags)
        ensures
            r.bits == bits & BUFFER_FLAGS_ALL,
    {
        BufferFlags { bits: bits & BUFFER_FLAGS_ALL }
    }

    pub fn contains(&self, flag: u32) -> (r: bool)
        ensures
            r == (self.bits & flag == flag),
    {
        self.bits & flag == flag
    }
}

/// Every capability that `struct v4l2_requestbuffers` defines.
pub const BUFFER_CAPABILITIES_ALL: u32 = 0x1f;

/// Capabilities of a queue, as reported by the request-buffers call.
#[derive(Debug, Clone, Copy, PartialEq, Eq, Structural)]
pub struct BufferCapabilities {
    pub bits: u32,
}

impl BufferCapabilities {
    pub const SUPPORTS_MMAP: u32 = 0x1;
    pub const SUPPORTS_USERPTR: u32 = 0x2;
    pub const SUPPORTS_DMABUF: u32 = 0x4;
    pub const SUPPORTS_REQUESTS: u32 = 0x8;
    pub const SUPPORTS_ORPHANED_BUFS: u32 = 0x10;

    /// Keeps the known capabilities of `bits` and drops the others.
    pub fn from_bits_truncate(bits: u32) -> (r: BufferCapabilities)
        ensures
            r.bits == bits & BUFFER_CAPABILITIES_ALL,
    {
        BufferCapabilities { bits: bits & BUFFER_CAPABILITIES_ALL }
    }

    pub fn contains(&self, flag: u32) -> (r: bool)
        ensures
            r == (self.bits & flag == flag),
    {
        self.bits & flag == flag
    }
}

/// The fields of `struct v4l2_requestbuffers` that the kernel fills in.
#[derive(Debug, Clone, Copy, PartialEq, Eq, Structural)]
pub struct RawRequestBuffers {
    pub count: u32,
    pub capabilities: u32,
}

/// Full result of the request-buffers call.
#[derive(Debug, Clone, Copy, PartialEq, Eq, Structural)]
pub struct RequestBuffers {
    pub count: u32,
    pub capabilities: BufferCapabilities,
}

/// Implementors can receive the result of the request-buffers call.
pub trait ReqBufs: Sized {
    fn from(reqbufs: RawRequestBuffers) -> Self;
}

impl ReqBufs for () {
    fn from(reqbufs: RawRequestBuffers) -> Self {
    }
}

/// When only the number of buffers that were created matters.
impl ReqBufs for usize {
    fn from(reqbufs: RawRequestBuffers) -> Self {
        reqbufs.count as usize
    }
}

/// When only the capabilities of the queue matter.
impl ReqBufs for BufferCapabilities {
    fn from(reqbufs: RawRequestBuffers) -> Self {
        BufferCapabilities::from_bits_truncate(reqbufs.capabilities)
    }
}

impl ReqBufs for RequestBuffers {
    fn from(reqbufs: RawRequestBuffers) -> Self {
        RequestBuffers::decode(reqbufs)
    }
}

impl RequestBuffers {
    pub open spec fn spec_decode(raw: RawRequestBuffers) -> RequestBuffers {
        RequestBuffers {
            count: raw.count,
            capabilities: BufferCapabilities { bits: raw.capabilities & BUFFER_CAPABILITIES_ALL },
        }
    }

    pub fn decode(raw: RawRequestBuffers) -> (r: RequestBuffers)
        ensures
            r == Self::spec_decode(raw),
    {
        RequestBuffers {
            count: raw.count,
            capabilities: BufferCapabilities::from_bits_truncate(raw.capabilities),
        }
    }
}

/// Description of one plane of a buffer about to be queued.
#[derive(Debug, Clone, Copy, PartialEq, Eq, Structural)]
pub struct QBufPlane {
    pub bytesused: u32,
    pub data_offset: u32,
    pub handle: PlaneHandle,
}

/// The fields of `struct v4l2_buffer` that the kernel fills in on dequeue.
#[derive(Debug, Clone, Copy, PartialEq, Eq, Structural)]
pub struct RawBuffer {
    pub index: u32,
    pub flags: u32,
    pub field: u32,
    pub sequence: u32,
    /// Single-planar: the length of the buffer. Multi-planar: the number of
    /// valid entries in the plane array.
    pub length: u32,
    pub bytesused: u32,
}

/// The fields of `struct v4l2_plane` that the kernel fills in on dequeue.
#[derive(Debug, Clone, Copy, PartialEq, Eq, Structural)]
pub struct RawPlane {
    pub length: u32,
    pub bytesused: u32,
    pub data_offset: u32,
}

#[derive(Debug, Clone, Copy, PartialEq, Eq, Structural)]
pub struct DQBufPlane {
    pub length: u32,
    pub bytesused: u32,
    pub data_offset: u32,
}

/// Everything the kernel says of a dequeued buffer.
#[derive(Debug, Clone, PartialEq, Eq)]
pub struct DQBuffer {
    pub index: u32,
    pub flags: BufferFlags,
    pub field: u32,
    pub sequence: u32,
    pub planes: Vec<DQBufPlane>,
}

pub open spec fn spec_plane(p: RawPlane) -> DQBufPlane {
    DQBufPlane { length: p.length, bytesused: p.bytesused, data_offset: p.data_offset }
}

/// The planes of a dequeued buffer: the buffer itself when single-planar,
/// else the first `length` entries of the plane array (as many as it holds).
pub open spec fn spec_planes(buf: RawBuffer, planes: Option<Seq<RawPlane>>) -> Seq<DQBufPlane> {
    match planes {
        None => seq![DQBufPlane { length: buf.length, bytesused: buf.bytesused, data_offset: 0 }],
        Some(ps) => {
            let n = if (buf.length as int) < ps.len() { buf.length as int } else { ps.len() as int };
            ps.subrange(0, n).map_values(|p: RawPlane| spec_plane(p))
        },
    }
}

pub open spec fn opt_view(planes: Option<&Vec<RawPlane>>) -> Option<Seq<RawPlane>> {
    match planes {
        Some(v) => Some(v@),
        None => None,
    }
}

/// `dq` is what the kernel's description `buf` (with plane array `planes`
/// when multi-planar) says of a dequeued buffer.
pub open spec fn spec_dequeued(dq: DQBuffer, buf: RawBuffer, planes: Option<Seq<RawPlane>>) -> bool {
    &&& dq.index == buf.index
    &&& dq.flags.bits == buf.flags & BUFFER_FLAGS_ALL
    &&& dq.field == buf.field
    &&& dq.sequence == buf.sequence
    &&& dq.planes@ == spec_planes(buf, planes)
}

/// The bytes-used of the first plane of a dequeued buffer is the one the
/// kernel reported for it.
pub proof fn lemma_first_plane_bytes_used(dq: DQBuffer, buf: RawBuffer, planes: Option<Seq<RawPlane>>)
    requires
        spec_dequeued(dq, buf, planes),
    ensures
        planes is None ==> dq.planes@.len() == 1 && dq.planes@[0].bytesused == buf.bytesused,
        planes matches Some(ps) ==> (buf.length > 0 && ps.len() > 0 ==> dq.planes@.len() > 0
            && dq.planes@[0].bytesused == ps[0].bytesused),
{
}

impl DQBuffer {
    /// Decodes the kernel's description of a dequeued buffer.
    pub fn from_raw(v4l2_buf: &RawBuffer, v4l2_planes: Option<&Vec<RawPlane>>) -> (r: DQBuffer)
        ensures
            spec_dequeued(r, *v4l2_buf, opt_view(v4l2_planes)),
    {
        let planes = match v4l2_planes {
            None => {
                let mut v: Vec<DQBufPlane> = Vec::new();
                v.push(DQBufPlane { length: v4l2_buf.length, bytesused: v4l2_buf.bytesused, data_offset: 0 });
                assert(v@ =~= spec_planes(*v4l2_buf, opt_view(v4l2_planes)));
                v
            },
            Some(ps) => {
                let n: usize = if (v4l2_buf.length as usize) < ps.len() {
                    v4l2_buf.length as usize
                } else {
                    ps.len()
                };
                let mut v: Vec<DQBufPlane> = Vec::new();
                let mut i: usize = 0;
                while i < n
                    invariant
                        n <= ps@.len(),
                        i <= n,
                        v@ =~= ps@.subrange(0, i as int).map_values(|p: RawPlane| spec_plane(p)),
                    decreases n - i,
                {
                    let p = ps[i];
                    v.push(DQBufPlane { length: p.length, bytesused: p.bytesused, data_offset: p.data_offset });
                    i = i + 1;
                }
                v
            },
        };
        DQBuffer {
            index: v4l2_buf.index,
            flags: BufferFlags::from_bits_truncate(v4l2_buf.flags),
            field: v4l2_buf.field,
            sequence: v4l2_buf.sequence,
            planes,
        }
    }
}

/// Implementors can receive the result of the dequeue call. `v4l2_planes` is
/// `None` for a single-planar buffer, else the plane array of the request.
pub trait DQBuf: Sized {
    fn from_v4l2_buffer(v4l2_buf: &RawBuffer, v4l2_planes: Option<&Vec<RawPlane>>) -> Result<Self, Error>;
}

/// Dequeues a buffer without caring for any of its data.
impl DQBuf for () {
    fn from_v4l2_buffer(v4l2_buf: &RawBuffer, v4l2_planes: Option<&Vec<RawPlane>>) -> Result<Self, Error> {
        Ok(())
    }
}

/// When only the index of the dequeued buffer matters.
impl DQBuf for u32 {
    fn from_v4l2_buffer(v4l2_buf: &RawBuffer, v4l2_planes: Option<&Vec<RawPlane>>) -> Result<Self, Error> {
        Ok(v4l2_buf.index)
    }
}

impl DQBuf for DQBuffer {
    fn from_v4l2_buffer(v4l2_buf: &RawBuffer, v4l2_planes: Option<&Vec<RawPlane>>) -> Result<Self, Error> {
        Ok(DQBuffer::from_raw(v4l2_buf, v4l2_planes))
    }
}

} // verus!
