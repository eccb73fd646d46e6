use rikka_gpu::deletion_queue::DeletionQueue;
use rikka_gpu::error::GpuError;
use rikka_gpu::frame::{FrameOrchestrator, SlotState};

#[test]
fn ring_starts_idle() {
    let o = FrameOrchestrator::new(3);
    assert_eq!(o.frames_in_flight(), 3);
    assert_eq!(o.frame_count(), 0);
    for i in 0..3 {
        assert_eq!(o.slot(i).state, SlotState::Idle);
    }
    assert_eq!(o.slot_to_wait(), None);
}

#[test]
fn frame_after_full_ring_waits_for_first_fence() {
    for n in 1usize..=3 {
        let mut o = FrameOrchestrator::new(n);
        for k in 0..n {
            assert_eq!(o.begin_frame(), Ok(k));
            assert_eq!(o.end_frame(), Ok(k as u64));
        }
        assert_eq!(o.slot_to_wait(), Some(0));
        assert_eq!(o.begin_frame(), Err(GpuError::FrameInFlight));
        assert_eq!(o.slot(0).frame, 0);
        assert_eq!(o.fence_signaled(0), Ok(0));
        assert_eq!(o.slot(0).state, SlotState::Retired);
        assert_eq!(o.slot_to_wait(), None);
        assert_eq!(o.begin_frame(), Ok(0));
        assert_eq!(o.end_frame(), Ok(n as u64));
    }
}

#[test]
fn frame_protocol_rejects_out_of_order_calls() {
    let mut o = FrameOrchestrator::new(2);
    assert_eq!(o.end_frame(), Err(GpuError::InvalidFrameState));
    assert_eq!(o.fence_signaled(0), Err(GpuError::InvalidFrameState));
    assert_eq!(o.fence_signaled(5), Err(GpuError::InvalidFrameState));
    assert_eq!(o.begin_frame(), Ok(0));
    assert_eq!(o.begin_frame(), Err(GpuError::InvalidFrameState));
    assert_eq!(o.abandon_frame(), Ok(()));
    assert_eq!(o.slot(0).state, SlotState::Idle);
    assert_eq!(o.frame_count(), 0);
    assert_eq!(o.abandon_frame(), Err(GpuError::InvalidFrameState));
    assert_eq!(o.begin_frame(), Ok(0));
    assert_eq!(o.end_frame(), Ok(0));
    assert_eq!(o.current_slot_index(), 1);
}

#[test]
fn deletion_waits_for_its_frame() {
    let mut q: DeletionQueue<u32> = DeletionQueue::new();
    q.request_destroy(10, 1);
    q.request_destroy(11, 3);
    assert!(q.collect(0).is_empty());
    q.request_destroy(12, 0);
    q.request_destroy(13, 2);
    assert_eq!(q.collect(0), vec![12]);
    assert_eq!(q.len(), 3);
    q.request_destroy(14, 5);
    assert_eq!(q.collect(2), vec![10, 13]);
    assert_eq!(q.collect(2), Vec::<u32>::new());
    assert_eq!(q.collect(4), vec![11]);
    assert_eq!(q.len(), 1);
    assert_eq!(q.collect(u64::MAX), vec![14]);
    assert_eq!(q.len(), 0);
}
