use gpu_sync::device::{Device, QueueRef, Submission};
use gpu_sync::future::merge_submissions;
use gpu_sync::pipeline::{AccessFlagBits, PipelineStages};
use gpu_sync::submit::{
    SemaphoresWaitBuilder, SubmitAnyBuilder, SubmitCommandBufferBuilder, SubmitPresentBuilder,
};

fn waits(sems: &[u64]) -> SubmitAnyBuilder {
    let mut w = SemaphoresWaitBuilder::new();
    for s in sems {
        w.semaphores.push(*s);
    }
    SubmitAnyBuilder::SemaphoresWait(w)
}

fn batch(cbs: &[u64]) -> SubmitAnyBuilder {
    let mut b = SubmitCommandBufferBuilder::new();
    for c in cbs {
        b.add_command_buffer(*c);
    }
    SubmitAnyBuilder::CommandBuffer(b)
}

fn present(swapchain: u64, image: u64) -> SubmitAnyBuilder {
    let mut p = SubmitPresentBuilder::new();
    p.add_swapchain(swapchain, image);
    SubmitAnyBuilder::QueuePresent(p)
}

#[test]
fn empty_is_the_identity_of_merge() {
    let mut dev = Device::new(1);
    let q = Some(QueueRef { device: 1, index: 0 });
    let r = merge_submissions(SubmitAnyBuilder::Empty, q, waits(&[4, 5]), q, &mut dev).unwrap();
    match r {
        SubmitAnyBuilder::SemaphoresWait(w) => assert_eq!(w.semaphores.as_slice(), &[4, 5]),
        _ => panic!("expected the right side back"),
    }
    let r = merge_submissions(batch(&[9]), q, SubmitAnyBuilder::Empty, q, &mut dev).unwrap();
    match r {
        SubmitAnyBuilder::CommandBuffer(b) => assert_eq!(b.command_buffers.as_slice(), &[9]),
        _ => panic!("expected the left side back"),
    }
    let r = merge_submissions(
        SubmitAnyBuilder::Empty,
        None,
        SubmitAnyBuilder::Empty,
        None,
        &mut dev,
    )
    .unwrap();
    assert!(matches!(r, SubmitAnyBuilder::Empty));
    assert_eq!(dev.submissions.len(), 0);
}

#[test]
fn two_wait_sets_unite_in_order() {
    let mut dev = Device::new(1);
    let r = merge_submissions(waits(&[1, 2]), None, waits(&[3]), None, &mut dev).unwrap();
    match r {
        SubmitAnyBuilder::SemaphoresWait(w) => assert_eq!(w.semaphores.as_slice(), &[1, 2, 3]),
        _ => panic!("expected united waits"),
    }
    assert_eq!(dev.submissions.len(), 0);
}

#[test]
fn wait_set_beside_batch_submits_the_batch_eagerly() {
    let mut dev = Device::new(1);
    let q2 = QueueRef { device: 1, index: 3 };
    let r = merge_submissions(waits(&[8]), None, batch(&[70, 71]), Some(q2), &mut dev).unwrap();
    match r {
        SubmitAnyBuilder::SemaphoresWait(w) => assert_eq!(w.semaphores.as_slice(), &[8]),
        _ => panic!("expected the waits to survive"),
    }
    assert_eq!(dev.submissions.len(), 1);
    match &dev.submissions[0] {
        Submission::Execute { queue, command_buffers, fence, .. } => {
            assert_eq!(*queue, q2);
            assert_eq!(command_buffers.as_slice(), &[70, 71]);
            assert_eq!(*fence, None);
        },
        _ => panic!("expected the eager submission"),
    }
}

#[test]
fn two_batches_append_into_one() {
    let mut dev = Device::new(1);
    let r = merge_submissions(batch(&[1]), None, batch(&[2, 3]), None, &mut dev).unwrap();
    match r {
        SubmitAnyBuilder::CommandBuffer(b) => {
            assert_eq!(b.command_buffers.as_slice(), &[1, 2, 3]);
            assert!(b.signal_fence.is_none());
        },
        _ => panic!("expected one appended batch"),
    }
    assert_eq!(dev.submissions.len(), 0);
}

#[test]
fn two_presents_submit_both_and_leave_nothing() {
    let mut dev = Device::new(1);
    let q1 = QueueRef { device: 1, index: 0 };
    let q2 = QueueRef { device: 1, index: 1 };
    let r = merge_submissions(present(40, 0), Some(q1), present(41, 2), Some(q2), &mut dev)
        .unwrap();
    assert!(matches!(r, SubmitAnyBuilder::Empty));
    assert_eq!(dev.submissions.len(), 2);
    match &dev.submissions[0] {
        Submission::Present { queue, images, .. } => {
            assert_eq!(*queue, q1);
            assert_eq!(images.as_slice(), &[(40, 0)]);
        },
        _ => panic!("expected the first present"),
    }
    match &dev.submissions[1] {
        Submission::Present { queue, images, .. } => {
            assert_eq!(*queue, q2);
            assert_eq!(images.as_slice(), &[(41, 2)]);
        },
        _ => panic!("expected the second present"),
    }
}

#[test]
fn batch_beside_present_is_an_error_either_way() {
    let mut dev = Device::new(1);
    let q = Some(QueueRef { device: 1, index: 0 });
    assert!(merge_submissions(batch(&[1]), q, present(2, 0), q, &mut dev).is_err());
    assert!(merge_submissions(present(2, 0), q, batch(&[1]), q, &mut dev).is_err());
    assert_eq!(dev.submissions.len(), 0);
}

#[test]
fn stage_flags_unite_commutatively() {
    let mut a = PipelineStages::none();
    a.vertex_shader = true;
    let mut b = PipelineStages::none();
    b.transfer = true;
    b.vertex_shader = true;
    assert_eq!(a.or(b), b.or(a));
    assert_eq!(a.or(a), a);
    assert_eq!(a.or(PipelineStages::none()), a);
    assert!(a.or(b).transfer);
    assert!(a.or(b).vertex_shader);
}

#[test]
fn flag_bit_patterns_match_the_native_encoding() {
    let mut s = PipelineStages::none();
    assert_eq!(s.bits(), 0);
    s.top_of_pipe = true;
    s.transfer = true;
    assert_eq!(s.bits(), 0x1 | 0x1000);
    let mut a = AccessFlagBits::none();
    a.index_read = true;
    a.memory_write = true;
    assert_eq!(a.bits(), 0x2 | 0x10000);
    assert_eq!(AccessFlagBits::all().bits(), 0x1ffff);
}

#[test]
fn queue_identity_comparison() {
    let q1 = QueueRef { device: 1, index: 0 };
    let q2 = QueueRef { device: 1, index: 0 };
    let q3 = QueueRef { device: 1, index: 1 };
    let q4 = QueueRef { device: 2, index: 0 };
    assert!(q1.is_same(&q2));
    assert!(!q1.is_same(&q3));
    assert!(!q1.is_same(&q4));
}
