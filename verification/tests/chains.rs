use gpu_sync::device::{Device, FenceStatus, FutureError, QueueRef, Submission};
use gpu_sync::future::{CommandBuffer, FenceSignalState, GpuFuture, ResourceUse};
use gpu_sync::pipeline::{AccessFlagBits, PipelineStages};

fn queue(device: u64, index: u64) -> QueueRef {
    QueueRef { device, index }
}

fn plain_cb(id: u64, device: u64) -> CommandBuffer {
    CommandBuffer { id, device, buffer_uses: Vec::new(), image_uses: Vec::new() }
}

fn cb_using_buffer(id: u64, device: u64, buffer: u64, exclusive: bool) -> CommandBuffer {
    CommandBuffer {
        id,
        device,
        buffer_uses: vec![ResourceUse {
            resource: buffer,
            exclusive,
            stages: PipelineStages::none(),
            access: AccessFlagBits::none(),
        }],
        image_uses: Vec::new(),
    }
}

#[test]
fn fence_only_submit_on_queue() {
    let mut dev = Device::new(7);
    let q = queue(7, 0);
    let chain = GpuFuture::dummy_on_queue(7, q);
    let mut f = chain.then_signal_fence(&mut dev);
    assert!(f.flush(&mut dev).is_ok());
    assert_eq!(dev.submissions.len(), 1);
    match &dev.submissions[0] {
        Submission::Execute { queue: sq, wait_semaphores, command_buffers, fence, .. } => {
            assert_eq!(*sq, q);
            assert!(wait_semaphores.is_empty());
            assert!(command_buffers.is_empty());
            assert_eq!(*fence, Some(0));
        },
        _ => panic!("expected a command-buffer submission"),
    }
    // A second flush performs no further submission.
    assert!(f.flush(&mut dev).is_ok());
    assert_eq!(dev.submissions.len(), 1);
    // After the fence wait, successors need nothing more.
    let built = f.build_submission(&mut dev).unwrap();
    assert!(matches!(built, gpu_sync::submit::SubmitAnyBuilder::Empty));
    assert_eq!(dev.fences[0], FenceStatus::Signalled);
    // Disposal does not re-submit.
    f.dispose(&mut dev);
    assert_eq!(dev.submissions.len(), 1);
}

#[test]
fn two_command_buffers_in_order_one_fence() {
    let mut dev = Device::new(1);
    let q = queue(1, 2);
    let chain = GpuFuture::dummy(1)
        .then_execute(q, plain_cb(10, 1))
        .unwrap()
        .then_execute_same_queue(plain_cb(11, 1))
        .unwrap();
    let f = chain.then_signal_fence_and_flush(&mut dev).unwrap();
    assert_eq!(dev.submissions.len(), 1);
    match &dev.submissions[0] {
        Submission::Execute { queue: sq, command_buffers, fence, .. } => {
            assert_eq!(*sq, q);
            assert_eq!(command_buffers.as_slice(), &[10, 11]);
            assert_eq!(*fence, Some(0));
        },
        _ => panic!("expected a command-buffer submission"),
    }
    assert_eq!(dev.fences.len(), 1);
    assert_eq!(dev.fences[0], FenceStatus::Submitted);
    assert!(matches!(f.state, FenceSignalState::Flushed(_, 0)));
}

#[test]
fn join_of_two_presents_then_fence() {
    let mut dev = Device::new(3);
    let q1 = queue(3, 0);
    let q2 = queue(3, 1);
    let a = GpuFuture::dummy(3).then_swapchain_present(q1, 40, 0).unwrap();
    let b = GpuFuture::dummy(3).then_swapchain_present(q2, 41, 5).unwrap();
    let joined = a.join(b).unwrap();
    let _f = joined.then_signal_fence_and_flush(&mut dev).unwrap();
    assert_eq!(dev.submissions.len(), 3);
    match &dev.submissions[0] {
        Submission::Present { queue: sq, images, .. } => {
            assert_eq!(*sq, q1);
            assert_eq!(images.as_slice(), &[(40, 0)]);
        },
        _ => panic!("expected the first present"),
    }
    match &dev.submissions[1] {
        Submission::Present { queue: sq, images, .. } => {
            assert_eq!(*sq, q2);
            assert_eq!(images.as_slice(), &[(41, 5)]);
        },
        _ => panic!("expected the second present"),
    }
    match &dev.submissions[2] {
        Submission::Execute { command_buffers, fence, .. } => {
            assert!(command_buffers.is_empty());
            assert_eq!(*fence, Some(0));
        },
        _ => panic!("expected the fence-only submission"),
    }
}

#[test]
fn partial_flush_retries_only_the_fence_step() {
    let mut dev = Device::new(3);
    let q = queue(3, 0);
    let chain = GpuFuture::dummy(3).then_swapchain_present(q, 40, 0).unwrap();
    let mut f = chain.then_signal_fence(&mut dev);
    // The present is accepted; the trailing fence-only batch is refused.
    dev.fail_plan = vec![false, true];
    assert_eq!(f.flush(&mut dev), Err(FutureError::SubmitRefused));
    assert!(matches!(f.state, FenceSignalState::PartiallyFlushed(_, _)));
    assert_eq!(dev.submissions.len(), 1);
    assert!(matches!(&dev.submissions[0], Submission::Present { .. }));
    // The retry re-runs only the fence step: no second present.
    assert!(f.flush(&mut dev).is_ok());
    assert!(matches!(f.state, FenceSignalState::Flushed(_, _)));
    assert_eq!(dev.submissions.len(), 2);
    assert!(matches!(&dev.submissions[1], Submission::Execute { .. }));
}

#[test]
fn fully_refused_flush_stays_pending_and_retries() {
    let mut dev = Device::new(4);
    let q = queue(4, 0);
    let chain = GpuFuture::dummy_on_queue(4, q);
    let mut f = chain.then_signal_fence(&mut dev);
    dev.fail_plan = vec![true];
    assert_eq!(f.flush(&mut dev), Err(FutureError::SubmitRefused));
    assert!(matches!(f.state, FenceSignalState::Pending(_, _)));
    assert_eq!(dev.submissions.len(), 0);
    assert!(f.flush(&mut dev).is_ok());
    assert!(matches!(f.state, FenceSignalState::Flushed(_, _)));
    assert_eq!(dev.submissions.len(), 1);
}

#[test]
fn double_exclusive_access_is_detected() {
    let mut dev = Device::new(5);
    let q = queue(5, 0);
    let buffer = 77;
    let a = GpuFuture::dummy(5)
        .then_execute(q, cb_using_buffer(20, 5, buffer, true))
        .unwrap()
        .then_signal_semaphore(&mut dev)
        .unwrap();
    let b = GpuFuture::dummy(5).then_execute(q, cb_using_buffer(21, 5, buffer, true)).unwrap();
    let joined = a.join(b).unwrap();
    assert!(joined.has_buffer_conflict(buffer, q));
    assert!(!joined.has_buffer_conflict(78, q));
    // A shared request on a buffer only one side uses is granted.
    assert!(joined.check_buffer_access(buffer, false, q).is_ok());
}

#[test]
fn shared_handle_builds_empty_without_resubmitting() {
    let mut dev = Device::new(6);
    let q = queue(6, 0);
    let chain = GpuFuture::dummy(6).then_execute(q, plain_cb(30, 6)).unwrap();
    let f = chain.then_signal_fence_and_flush(&mut dev).unwrap();
    assert_eq!(dev.submissions.len(), 1);
    let shared = f.shared();
    let mut alias = shared.clone();
    let built = alias.build_submission(&mut dev).unwrap();
    assert!(matches!(built, gpu_sync::submit::SubmitAnyBuilder::Empty));
    assert_eq!(dev.submissions.len(), 1);
}

#[test]
fn join_refuses_pinned_queue_mismatch() {
    let q1 = queue(9, 0);
    let q2 = queue(9, 1);
    let a = GpuFuture::dummy(9).then_execute(q1, plain_cb(1, 9)).unwrap();
    let b = GpuFuture::dummy(9).then_execute(q2, plain_cb(2, 9)).unwrap();
    match a.join(b) {
        Err(FutureError::QueueMismatch) => {},
        other => panic!("expected a queue mismatch, got {:?}", other.is_ok()),
    }
}

#[test]
fn join_refuses_different_devices() {
    let a = GpuFuture::dummy(1);
    let b = GpuFuture::dummy(2);
    match a.join(b) {
        Err(FutureError::DeviceMismatch) => {},
        _ => panic!("expected a device mismatch"),
    }
}

#[test]
fn execute_after_present_is_illegal_composition() {
    let mut dev = Device::new(8);
    let q = queue(8, 0);
    let chain = GpuFuture::dummy(8)
        .then_swapchain_present(q, 50, 0)
        .unwrap()
        .then_execute(q, plain_cb(3, 8))
        .unwrap();
    let mut f = chain.then_signal_fence(&mut dev);
    assert_eq!(f.flush(&mut dev), Err(FutureError::IllegalComposition));
    assert_eq!(dev.submissions.len(), 0);
}

#[test]
fn missing_queue_is_reported() {
    let chain = GpuFuture::dummy(1);
    match chain.then_execute_same_queue(plain_cb(4, 1)) {
        Err(FutureError::MissingQueue) => {},
        _ => panic!("expected a missing queue"),
    }
}

#[test]
fn cleanup_moves_to_cleaned_only_after_signal() {
    let mut dev = Device::new(2);
    let q = queue(2, 0);
    let chain = GpuFuture::dummy_on_queue(2, q);
    let mut f = chain.then_signal_fence_and_flush(&mut dev).unwrap();
    // The fence is submitted but not yet observed signalled: no cleanup.
    f.cleanup_finished(&dev);
    assert!(matches!(f.state, FenceSignalState::Flushed(_, _)));
    // The device finishes its work; now cleanup releases everything.
    dev.complete_all();
    f.cleanup_finished(&dev);
    assert!(matches!(f.state, FenceSignalState::Cleaned));
}

#[test]
fn semaphore_signal_chain_hands_waits_to_successors() {
    let mut dev = Device::new(4);
    let q1 = queue(4, 0);
    let q2 = queue(4, 1);
    let first = GpuFuture::dummy(4)
        .then_execute(q1, plain_cb(60, 4))
        .unwrap()
        .then_signal_semaphore_and_flush(&mut dev)
        .unwrap();
    assert_eq!(dev.submissions.len(), 1);
    match &dev.submissions[0] {
        Submission::Execute { queue: sq, command_buffers, signal_semaphores, fence, .. } => {
            assert_eq!(*sq, q1);
            assert_eq!(command_buffers.as_slice(), &[60]);
            assert_eq!(signal_semaphores.as_slice(), &[0]);
            assert_eq!(*fence, None);
        },
        _ => panic!("expected the signalling submission"),
    }
    // Work on another queue after the semaphore waits on it.
    let chain = first.then_execute(q2, plain_cb(61, 4)).unwrap();
    let _f = chain.then_signal_fence_and_flush(&mut dev).unwrap();
    assert_eq!(dev.submissions.len(), 2);
    match &dev.submissions[1] {
        Submission::Execute { queue: sq, wait_semaphores, command_buffers, fence, .. } => {
            assert_eq!(*sq, q2);
            assert_eq!(wait_semaphores.as_slice(), &[0]);
            assert_eq!(command_buffers.as_slice(), &[61]);
            assert_eq!(*fence, Some(0));
        },
        _ => panic!("expected the waiting submission"),
    }
}

#[test]
fn wait_on_unsubmitted_fence_fails() {
    let mut dev = Device::new(1);
    let fence = dev.new_fence();
    assert_eq!(dev.wait_fence(fence), Err(FutureError::FenceWaitFailed));
    assert_eq!(dev.fences[0], FenceStatus::Unsubmitted);
}
