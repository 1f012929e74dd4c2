use v4l2r::error::{from_errno, Error, EAGAIN};
use v4l2r::ioctl::{
    BufferCapabilities, BufferFlags, DQBuf, DQBuffer, QueueType, RawBuffer, RawPlane,
    RawRequestBuffers, ReqBufs, RequestBuffers,
};
use v4l2r::memory::{MemoryType, PlaneHandle, UserPtrHandle};
use v4l2r::qbuf::{PendingQueue, Plane, QBuffer};
use v4l2r::queue::Queue;

fn granted(count: u32) -> Result<RequestBuffers, i32> {
    Ok(RequestBuffers { count, capabilities: BufferCapabilities::from_bits_truncate(0x3) })
}

fn raw_buffer(index: u32, bytesused: u32) -> RawBuffer {
    RawBuffer { index, flags: 0, field: 1, sequence: 7, length: 4096, bytesused }
}

fn pending<B>(r: Result<PendingQueue<B>, v4l2r::qbuf::QueueError<B>>) -> PendingQueue<B> {
    match r {
        Ok(p) => p,
        Err(e) => panic!("submission refused: {:?}", e.error),
    }
}

fn builder<B>(r: Result<QBuffer<B>, Error>) -> QBuffer<B> {
    match r {
        Ok(b) => b,
        Err(e) => panic!("no builder: {:?}", e),
    }
}

fn mmap_capture_queue(count: u32, num_planes: usize) -> Queue<()> {
    let mut q: Queue<()> = Queue::new(QueueType::VideoCapture);
    assert_eq!(q.prepare_allocate(count), Ok(true));
    assert_eq!(q.allocate(MemoryType::Mmap, num_planes, count, granted(count)), Ok(count as usize));
    q
}

#[test]
fn mmap_capture_scenario() {
    let mut q = mmap_capture_queue(2, 1);
    assert_eq!(q.stream_on(Ok(())), Ok(()));
    assert!(q.is_streaming());
    for expected in 0..2usize {
        let b = builder(q.get_buffer(None));
        assert_eq!(b.index(), expected);
        let p = pending(b.auto_queue());
        assert_eq!(p.planes().len(), 1);
        assert!(q.commit_queued(p, Ok(())).is_ok());
    }
    assert_eq!(q.num_queued_buffers(), 2);
    assert_eq!(q.prepare_dequeue(), Ok(()));
    let (dq, handles) = q.dequeue(Ok(raw_buffer(0, 1024)), &Vec::new()).ok().unwrap();
    assert_eq!(dq.index, 0);
    assert_eq!(dq.planes[0].bytesused, 1024);
    assert_eq!(handles.len(), 1);
    assert!(q.is_buffer_free(0));
    assert!(q.is_buffer_queued(1));
    assert_eq!(q.num_queued_buffers(), 1);
}

#[test]
fn allocate_zero_is_a_no_op() {
    let mut q: Queue<()> = Queue::new(QueueType::VideoOutput);
    assert_eq!(q.prepare_allocate(0), Ok(false));
    assert_eq!(q.allocate(MemoryType::Mmap, 1, 0, Err(22)), Ok(0));
    assert!(!q.is_allocated());
    assert!(matches!(q.get_buffer(None), Err(Error::NotAllocated)));
    assert!(matches!(q.get_buffer(Some(0)), Err(Error::NotAllocated)));
}

#[test]
fn dequeue_with_nothing_queued() {
    let mut q = mmap_capture_queue(2, 1);
    assert_eq!(q.prepare_dequeue(), Err(Error::NoBuffersQueued));
    let r = q.dequeue(Ok(raw_buffer(0, 1)), &Vec::new());
    assert!(matches!(r, Err(Error::NoBuffersQueued)));
    assert!(q.is_buffer_free(0));
}

#[test]
fn dequeue_on_free_queue() {
    let mut q: Queue<()> = Queue::new(QueueType::VideoCapture);
    assert_eq!(q.prepare_dequeue(), Err(Error::NotAllocated));
}

#[test]
fn too_few_and_too_many_planes() {
    let q: Queue<u8> = {
        let mut q = Queue::new(QueueType::VideoOutputMplane);
        assert_eq!(q.allocate(MemoryType::UserPtr, 2, 1, granted(1)), Ok(1));
        q
    };
    let handle = PlaneHandle::UserPtr(UserPtrHandle::new(0x1000, 16));
    let b = builder(q.get_buffer(Some(0))).add_plane(Plane::out(7u8, handle, 4));
    match b.queue() {
        Err(e) => {
            assert_eq!(e.error, Error::TooFewPlanes);
            assert_eq!(e.plane_handles, vec![7u8]);
        }
        Ok(_) => panic!("one plane of two was accepted"),
    }
    let b = builder(q.get_buffer(Some(0)))
        .add_plane(Plane::out(1u8, handle, 4))
        .add_plane(Plane::out(2u8, handle, 4))
        .add_plane(Plane::out(3u8, handle, 4));
    match b.queue() {
        Err(e) => {
            assert_eq!(e.error, Error::TooManyPlanes);
            assert_eq!(e.plane_handles, vec![1u8, 2, 3]);
        }
        Ok(_) => panic!("three planes of two were accepted"),
    }
    assert!(q.is_buffer_free(0));
    assert_eq!(q.num_queued_buffers(), 0);
}

#[test]
fn abandoned_builders_leave_buffer_free() {
    let q: Queue<u8> = {
        let mut q = Queue::new(QueueType::VideoOutputMplane);
        assert_eq!(q.allocate(MemoryType::UserPtr, 3, 1, granted(1)), Ok(1));
        q
    };
    let handle = PlaneHandle::UserPtr(UserPtrHandle::new(0x2000, 8));
    for n in 0..3u8 {
        let mut b = builder(q.get_buffer(None));
        for k in 0..n {
            b = b.add_plane(Plane::out(k, handle, 1));
        }
        assert_eq!(b.num_set_planes(), n as usize);
        assert_eq!(b.num_expected_planes(), 3);
        drop(b);
        assert!(q.is_buffer_free(0));
        assert_eq!(builder(q.get_buffer(None)).index(), 0);
    }
}

#[test]
fn device_refusal_returns_handles() {
    let mut q: Queue<String> = Queue::new(QueueType::VideoOutput);
    assert_eq!(q.allocate(MemoryType::UserPtr, 1, 1, granted(1)), Ok(1));
    let handle = PlaneHandle::UserPtr(UserPtrHandle::new(0x3000, 3));
    let p = pending(builder(q.get_buffer(None)).add_plane(Plane::out("abc".to_string(), handle, 3)).queue());
    match q.commit_queued(p, Err(22)) {
        Err(e) => {
            assert_eq!(e.error, Error::DeviceRejected(22));
            assert_eq!(e.plane_handles, vec!["abc".to_string()]);
        }
        Ok(()) => panic!("refused submission recorded"),
    }
    assert!(q.is_buffer_free(0));
}

#[test]
fn no_free_buffer() {
    let mut q = mmap_capture_queue(1, 1);
    let p = pending(builder(q.get_buffer(None)).auto_queue());
    assert!(q.commit_queued(p, Ok(())).is_ok());
    assert!(matches!(q.get_buffer(None), Err(Error::NoFreeBuffer)));
    assert!(matches!(q.get_buffer(Some(0)), Err(Error::NoFreeBuffer)));
    assert!(matches!(q.get_buffer(Some(5)), Err(Error::NoFreeBuffer)));
}

#[test]
fn second_commit_of_same_index_refused() {
    let mut q = mmap_capture_queue(1, 1);
    let p1 = pending(builder(q.get_buffer(Some(0))).auto_queue());
    let p2 = pending(builder(q.get_buffer(Some(0))).auto_queue());
    assert!(q.commit_queued(p1, Ok(())).is_ok());
    match q.commit_queued(p2, Ok(())) {
        Err(e) => assert_eq!(e.error, Error::NoFreeBuffer),
        Ok(()) => panic!("index queued twice"),
    }
    assert_eq!(q.num_queued_buffers(), 1);
}

#[test]
fn user_pointer_round_trip() {
    let mut q: Queue<Vec<u8>> = Queue::new(QueueType::VideoOutputMplane);
    assert_eq!(q.allocate(MemoryType::UserPtr, 1, 2, granted(2)), Ok(2));
    let data = vec![9u8; 64];
    let handle = PlaneHandle::UserPtr(UserPtrHandle::new(0x4000, data.len()));
    let plane = Plane::out(data.clone(), handle, 48).set_data_offset(4);
    let p = pending(builder(q.get_buffer(Some(1))).add_plane(plane).queue());
    assert_eq!(p.index(), 1);
    assert_eq!(p.planes()[0].bytesused, 48);
    assert_eq!(p.planes()[0].data_offset, 4);
    assert_eq!(p.planes()[0].handle, handle);
    assert!(q.commit_queued(p, Ok(())).is_ok());
    let raw = RawBuffer { index: 1, flags: 0x4 | 0x8000_0000, field: 1, sequence: 3, length: 1, bytesused: 0 };
    let planes = vec![RawPlane { length: 64, bytesused: 48, data_offset: 4 }];
    let (dq, mut handles) = q.dequeue(Ok(raw), &planes).ok().unwrap();
    assert_eq!(dq.index, 1);
    assert_eq!(dq.sequence, 3);
    assert_eq!(dq.flags.bits, 0x4);
    assert!(dq.flags.contains(BufferFlags::DONE));
    assert_eq!(dq.planes.len(), 1);
    assert_eq!(dq.planes[0].bytesused, 48);
    assert_eq!(handles.pop(), Some(data));
    assert!(q.is_buffer_free(1));
}

#[test]
fn stream_off_returns_every_handle_once() {
    let mut q: Queue<u32> = Queue::new(QueueType::VideoOutput);
    assert_eq!(q.allocate(MemoryType::UserPtr, 1, 3, granted(3)), Ok(3));
    assert_eq!(q.stream_on(Ok(())), Ok(()));
    let handle = PlaneHandle::UserPtr(UserPtrHandle::new(0x5000, 4));
    for i in [2usize, 0] {
        let p = pending(builder(q.get_buffer(Some(i))).add_plane(Plane::out(i as u32 * 10, handle, 4)).queue());
        assert!(q.commit_queued(p, Ok(())).is_ok());
    }
    assert_eq!(q.prepare_deallocate(), Err(Error::BuffersStillInUse));
    assert_eq!(q.stream_off(Err(5)).err(), Some(Error::DeviceRejected(5)));
    assert_eq!(q.num_queued_buffers(), 2);
    let back = q.stream_off(Ok(())).ok().unwrap();
    assert_eq!(back, vec![vec![0u32], vec![20u32]]);
    assert_eq!(q.num_queued_buffers(), 0);
    for i in 0..3 {
        assert!(q.is_buffer_free(i));
    }
    assert!(!q.is_streaming());
    assert_eq!(q.prepare_deallocate(), Ok(MemoryType::UserPtr));
    assert_eq!(q.deallocate(Ok(())), Ok(()));
    assert!(!q.is_allocated());
    assert_eq!(q.memory_type(), None);
}

#[test]
fn allocation_errors() {
    let mut q: Queue<()> = Queue::new(QueueType::VideoCapture);
    assert_eq!(q.allocate(MemoryType::Mmap, 1, 4, Err(22)), Err(Error::DeviceRejected(22)));
    assert!(!q.is_allocated());
    assert_eq!(q.prepare_deallocate(), Err(Error::NotAllocated));
    assert_eq!(q.deallocate(Ok(())), Err(Error::NotAllocated));
    assert_eq!(q.allocate(MemoryType::Mmap, 1, 4, granted(3)), Ok(3));
    assert_eq!(q.num_buffers(), 3);
    assert_eq!(q.memory_type(), Some(MemoryType::Mmap));
    assert_eq!(q.prepare_allocate(2), Err(Error::AlreadyAllocated));
    assert_eq!(q.allocate(MemoryType::Mmap, 1, 2, granted(2)), Err(Error::AlreadyAllocated));
    assert_eq!(q.stream_on(Ok(())), Ok(()));
    assert_eq!(q.deallocate(Ok(())), Err(Error::BuffersStillInUse));
    assert_eq!(q.stream_off(Ok(())).ok().map(|v| v.len()), Some(0));
    assert_eq!(q.deallocate(Err(16)), Err(Error::DeviceRejected(16)));
    assert!(q.is_allocated());
}

#[test]
fn dequeue_errors() {
    let mut q = mmap_capture_queue(2, 1);
    let p = pending(builder(q.get_buffer(None)).auto_queue());
    assert!(q.commit_queued(p, Ok(())).is_ok());
    assert!(matches!(q.dequeue(Err(EAGAIN), &Vec::new()), Err(Error::WouldBlock)));
    assert!(matches!(q.dequeue(Err(5), &Vec::new()), Err(Error::DeviceRejected(5))));
    assert!(matches!(q.dequeue(Ok(raw_buffer(1, 0)), &Vec::new()), Err(Error::InvalidBufferIndex(1))));
    assert!(matches!(q.dequeue(Ok(raw_buffer(9, 0)), &Vec::new()), Err(Error::InvalidBufferIndex(9))));
    assert_eq!(q.num_queued_buffers(), 1);
    assert!(q.is_buffer_queued(0));
}

#[test]
fn auto_queue_fills_planes() {
    let q = mmap_capture_queue(1, 3);
    let b = builder(q.get_buffer(None)).add_plane(Plane::cap((), PlaneHandle::Mmap));
    let p = pending(b.auto_queue());
    assert_eq!(p.planes().len(), 3);
    for plane in p.planes() {
        assert_eq!(plane.bytesused, 0);
        assert_eq!(plane.handle, PlaneHandle::Mmap);
    }
}

#[test]
fn decode_single_and_multi_planar() {
    let raw = RawBuffer { index: 2, flags: 0x1, field: 4, sequence: 11, length: 2, bytesused: 100 };
    let single = DQBuffer::from_raw(&raw, None);
    assert_eq!(single.planes.len(), 1);
    assert_eq!(single.planes[0].length, 2);
    assert_eq!(single.planes[0].bytesused, 100);
    assert_eq!(single.planes[0].data_offset, 0);
    let planes = vec![
        RawPlane { length: 10, bytesused: 5, data_offset: 1 },
        RawPlane { length: 20, bytesused: 6, data_offset: 2 },
        RawPlane { length: 30, bytesused: 7, data_offset: 3 },
    ];
    let multi = DQBuffer::from_raw(&raw, Some(&planes));
    assert_eq!(multi.planes.len(), 2);
    assert_eq!(multi.planes[1].bytesused, 6);
    assert_eq!(multi.planes[1].data_offset, 2);
    let long = RawBuffer { length: 8, ..raw };
    assert_eq!(DQBuffer::from_raw(&long, Some(&planes)).planes.len(), 3);
    let via_trait = <DQBuffer as DQBuf>::from_v4l2_buffer(&raw, Some(&planes)).unwrap();
    assert_eq!(via_trait, multi);
    assert_eq!(<u32 as DQBuf>::from_v4l2_buffer(&raw, None).unwrap(), 2);
}

#[test]
fn request_buffers_decoding() {
    let raw = RawRequestBuffers { count: 4, capabilities: 0xff };
    let full = <RequestBuffers as ReqBufs>::from(raw);
    assert_eq!(full.count, 4);
    assert_eq!(full.capabilities.bits, 0x1f);
    assert!(full.capabilities.contains(BufferCapabilities::SUPPORTS_USERPTR));
    assert_eq!(<usize as ReqBufs>::from(raw), 4);
    assert_eq!(<BufferCapabilities as ReqBufs>::from(raw).bits, 0x1f);
    assert_eq!(BufferFlags::from_bits_truncate(0xffff_ffff).bits, 0x917fff);
}

#[test]
fn codes() {
    assert_eq!(MemoryType::Mmap.code(), 1);
    assert_eq!(MemoryType::UserPtr.code(), 2);
    assert_eq!(MemoryType::DmaBuf.code(), 4);
    assert_eq!(QueueType::VideoCaptureMplane.code(), 9);
    assert_eq!(QueueType::VideoOutput.code(), 2);
    assert!(QueueType::VideoOutputMplane.is_multi_planar());
    assert!(!QueueType::VideoCapture.is_multi_planar());
    assert!(QueueType::VideoCaptureMplane.is_capture());
    assert_eq!(from_errno(EAGAIN), Error::WouldBlock);
    assert_eq!(from_errno(1), Error::DeviceRejected(1));
    let h = UserPtrHandle::new(0x1234, (1usize << 32) + 5);
    assert_eq!(h.address(), 0x1234);
    assert_eq!(h.length(), 5);
    assert_eq!(PlaneHandle::UserPtr(h).memory_type(), MemoryType::UserPtr);
}
