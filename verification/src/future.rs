//! The future graph: nodes that stand for pending GPU work, their
//! combinators, and the flush algorithm that folds a chain into device
//! submissions.
//!
//! A chain starts at an identity node and grows by combinators: joining two
//! sibling chains, executing a recorded command buffer, signalling a
//! semaphore (cross-queue ordering), signalling a fence (host-side waits), or
//! presenting a swapchain image.  Every node answers the same questions: the
//! owning device, the target queue (if pinned), whether successors may move
//! to another queue, what must be submitted for its event to happen, and
//! whether the chain grants access to a given buffer or image.

use crate::device::{Device, FenceStatus, FutureError, QueueRef};
use crate::pipeline::{AccessFlagBits, PipelineStages};
use crate::submit::{
    SemaphoresWaitBuilder, SubmitAnyBuilder, SubmitCommandBufferBuilder, SubmitPresentBuilder,
};
use vstd::prelude::*;

verus! {

/// The latest use of one resource by a recorded command buffer.
#[derive(Clone, Copy, PartialEq, Eq, Structural, Debug)]
pub struct ResourceUse {
    pub resource: u64,
    pub exclusive: bool,
    pub stages: PipelineStages,
    pub access: AccessFlagBits,
}

/// A sealed, recorded command buffer: its handle, the device it was recorded
/// against, and the buffers and images its commands touch.
#[derive(Clone, Debug)]
pub struct CommandBuffer {
    pub id: u64,
    pub device: u64,
    pub buffer_uses: Vec<ResourceUse>,
    pub image_uses: Vec<ResourceUse>,
}

/// Two sibling chains joined: both events must happen.
#[derive(Debug)]
pub struct JoinFuture {
    pub first: Box<GpuFuture>,
    pub second: Box<GpuFuture>,
}

/// A semaphore signalled after a predecessor chain; successors inherit the
/// wait on that semaphore instead of the whole chain.
#[derive(Debug)]
pub struct SemaphoreSignalFuture {
    pub previous: Box<GpuFuture>,
    pub semaphore: u64,
    pub flushed: bool,
}

/// State machine of a fence-signal node.
///
/// Transitions: Pending to Flushed or PartiallyFlushed, PartiallyFlushed to
/// Flushed, Flushed to Cleaned.  Cleaned and Poisoned are terminal.
#[derive(Debug)]
pub enum FenceSignalState {
    /// Not yet submitted; holds the predecessor and the fence.
    Pending(Box<GpuFuture>, u64),
    /// A two-step submission (present, then fence-only batch) succeeded on
    /// step one and failed on step two; a retry re-runs only step two.
    PartiallyFlushed(Box<GpuFuture>, u64),
    /// Submission accepted by the device.
    Flushed(Box<GpuFuture>, u64),
    /// The fence was observed signalled; predecessor and fence are released.
    Cleaned,
    /// A failed transition left the node permanently dead.
    Poisoned,
}

/// A fence signalled after a predecessor chain; the one node whose flush owns
/// a state machine with a partially-flushed intermediate state.
#[derive(Debug)]
pub struct FenceSignalFuture {
    pub device: u64,
    pub state: FenceSignalState,
}

/// A shared handle to a flushed fence-signal node.  It delegates every
/// question to the wrapped node; building a submission always yields the
/// empty accumulator, so no number of aliases can submit the inner work
/// again.
#[derive(Debug)]
pub struct SharedFenceSignalFuture {
    pub inner: FenceSignalFuture,
}

/// A recorded command buffer executed on a queue after a predecessor chain.
#[derive(Debug)]
pub struct CommandBufferExecFuture {
    pub previous: Box<GpuFuture>,
    pub queue: QueueRef,
    pub command_buffer: CommandBuffer,
    pub submitted: bool,
}

/// A swapchain image presented on a queue after a predecessor chain.
#[derive(Debug)]
pub struct PresentFuture {
    pub previous: Box<GpuFuture>,
    pub queue: QueueRef,
    pub swapchain: u64,
    pub image_index: u64,
    pub flushed: bool,
}

/// An event that will happen on the GPU: the node of the future graph.
#[derive(Debug)]
pub enum GpuFuture {
    /// The zero-work anchor of a chain.
    Dummy { device: u64, queue: Option<QueueRef> },
    Join(JoinFuture),
    SemaphoreSignal(SemaphoreSignalFuture),
    FenceSignal(FenceSignalFuture),
    Execute(CommandBufferExecFuture),
    Present(PresentFuture),
    SharedFenceSignal(SharedFenceSignalFuture),
}

/// Which accumulator variant a node's build-submission yields, with a marker
/// for the one combination the merge table leaves undefined.
#[derive(Clone, Copy, PartialEq, Eq, Structural, Debug)]
pub enum SubmitKind {
    Nothing,
    Waits,
    Commands,
    Presents,
    Illegal,
}

// ------------------------------------------------------------------
// Structural measures, used for termination of the recursive walks.
// ------------------------------------------------------------------

pub open spec fn height(f: GpuFuture) -> nat
    decreases f,
{
    match f {
        GpuFuture::Dummy { .. } => 0,
        GpuFuture::Join(j) => 2 + height(*j.first) + height(*j.second),
        GpuFuture::SemaphoreSignal(s) => 2 + height(*s.previous),
        GpuFuture::FenceSignal(fs) => match fs.state {
            FenceSignalState::Pending(p, _) => 3 + height(*p),
            FenceSignalState::PartiallyFlushed(p, _) => 3 + height(*p),
            FenceSignalState::Flushed(p, _) => 3 + height(*p),
            FenceSignalState::Cleaned => 1,
            FenceSignalState::Poisoned => 1,
        },
        GpuFuture::Execute(e) => 2 + height(*e.previous),
        GpuFuture::Present(p) => 2 + height(*p.previous),
        GpuFuture::SharedFenceSignal(sh) => match sh.inner.state {
            FenceSignalState::Pending(p, _) => 4 + height(*p),
            FenceSignalState::PartiallyFlushed(p, _) => 4 + height(*p),
            FenceSignalState::Flushed(p, _) => 4 + height(*p),
            FenceSignalState::Cleaned => 2,
            FenceSignalState::Poisoned => 2,
        },
    }
}

/// Measure of a join, strictly between its children and the enclosing node.
pub open spec fn join_height(j: JoinFuture) -> nat {
    1 + height(*j.first) + height(*j.second)
}

/// Measure of a fence-signal node, strictly between the held predecessor and
/// the enclosing node.
pub open spec fn fence_height(fs: FenceSignalFuture) -> nat {
    match fs.state {
        FenceSignalState::Pending(p, _) => 2 + height(*p),
        FenceSignalState::PartiallyFlushed(p, _) => 2 + height(*p),
        FenceSignalState::Flushed(p, _) => 2 + height(*p),
        FenceSignalState::Cleaned => 0,
        FenceSignalState::Poisoned => 0,
    }
}

/// Measure of a shared handle, strictly between the wrapped node and the
/// enclosing node.
pub open spec fn shared_height(sh: SharedFenceSignalFuture) -> nat {
    1 + fence_height(sh.inner)
}

// ------------------------------------------------------------------
// The questions every node answers, at the specification level.
// ------------------------------------------------------------------

/// The owning device of a node.
pub open spec fn device_of(f: GpuFuture) -> u64
    decreases f,
{
    match f {
        GpuFuture::Dummy { device, .. } => device,
        GpuFuture::Join(j) => device_of(*j.first),
        GpuFuture::SemaphoreSignal(s) => device_of(*s.previous),
        GpuFuture::FenceSignal(fs) => fs.device,
        GpuFuture::Execute(e) => device_of(*e.previous),
        GpuFuture::Present(p) => device_of(*p.previous),
        GpuFuture::SharedFenceSignal(sh) => sh.inner.device,
    }
}

/// Whether successors may target a different queue than `queue_of`.
pub open spec fn queue_change_allowed_of(f: GpuFuture) -> bool
    decreases f,
{
    match f {
        GpuFuture::Dummy { .. } => true,
        GpuFuture::Join(j) => queue_change_allowed_of(*j.first) && queue_change_allowed_of(
            *j.second,
        ),
        GpuFuture::SemaphoreSignal(_) => true,
        GpuFuture::FenceSignal(_) => true,
        GpuFuture::Execute(_) => false,
        GpuFuture::Present(_) => true,
        GpuFuture::SharedFenceSignal(_) => true,
    }
}

/// The target queue of a node, if pinned or inherited; a join picks per its
/// rule: agreeing queues win, else the side that cannot move wins.
pub open spec fn queue_of(f: GpuFuture) -> Option<QueueRef>
    decreases f,
{
    match f {
        GpuFuture::Dummy { queue, .. } => queue,
        GpuFuture::Join(j) => match (queue_of(*j.first), queue_of(*j.second)) {
            (Some(q1), Some(q2)) => if q1 == q2 {
                Some(q1)
            } else if queue_change_allowed_of(*j.first) {
                Some(q2)
            } else if queue_change_allowed_of(*j.second) {
                Some(q1)
            } else {
                None
            },
            (Some(q), None) => Some(q),
            (None, Some(q)) => Some(q),
            (None, None) => None,
        },
        GpuFuture::SemaphoreSignal(s) => queue_of(*s.previous),
        GpuFuture::FenceSignal(_) => None,
        GpuFuture::Execute(e) => Some(e.queue),
        GpuFuture::Present(p) => Some(p.queue),
        GpuFuture::SharedFenceSignal(_) => None,
    }
}

/// The fence-signal states in which the node's own submission has been
/// handed over (or can never be).
pub open spec fn fence_flushed(fs: FenceSignalFuture) -> bool {
    fs.state is Flushed || fs.state is Cleaned || fs.state is Poisoned
}

/// Whether a node has nothing left to submit: flushing it again performs no
/// device submission.
pub open spec fn is_flushed(f: GpuFuture) -> bool
    decreases f,
{
    match f {
        GpuFuture::Dummy { .. } => true,
        GpuFuture::Join(j) => is_flushed(*j.first) && is_flushed(*j.second),
        GpuFuture::SemaphoreSignal(s) => s.flushed,
        GpuFuture::FenceSignal(fs) => fence_flushed(fs),
        GpuFuture::Execute(e) => e.submitted,
        GpuFuture::Present(p) => p.flushed,
        GpuFuture::SharedFenceSignal(_) => true,
    }
}

/// Whether the fence-signal node may be told that the GPU observed its
/// completion.
pub open spec fn fence_signal_ready(fs: FenceSignalFuture) -> bool
    decreases fs,
{
    match fs.state {
        FenceSignalState::Pending(_, _) => false,
        FenceSignalState::PartiallyFlushed(_, _) => false,
        FenceSignalState::Flushed(p, _) => signal_ready(*p),
        FenceSignalState::Cleaned => true,
        FenceSignalState::Poisoned => true,
    }
}

/// Whether declaring this node's submission finished reaches no node that
/// was never flushed.
pub open spec fn signal_ready(f: GpuFuture) -> bool
    decreases f,
{
    match f {
        GpuFuture::Dummy { .. } => true,
        GpuFuture::Join(j) => signal_ready(*j.first) && signal_ready(*j.second),
        GpuFuture::SemaphoreSignal(s) => signal_ready(*s.previous),
        GpuFuture::FenceSignal(fs) => fence_signal_ready(fs),
        GpuFuture::Execute(e) => signal_ready(*e.previous),
        GpuFuture::Present(p) => signal_ready(*p.previous),
        GpuFuture::SharedFenceSignal(sh) => fence_signal_ready(sh.inner),
    }
}

/// The merge table at the level of accumulator variants.  An illegal operand
/// poisons the result; the two command-buffer-versus-present cells are not
/// legal composition.
pub open spec fn merge_kind(a: SubmitKind, b: SubmitKind) -> SubmitKind {
    if a is Illegal || b is Illegal {
        SubmitKind::Illegal
    } else if a is Nothing {
        b
    } else if b is Nothing {
        a
    } else if a is Waits || b is Waits {
        SubmitKind::Waits
    } else if a is Commands && b is Commands {
        SubmitKind::Commands
    } else if a is Presents && b is Presents {
        SubmitKind::Nothing
    } else {
        SubmitKind::Illegal
    }
}

/// Which accumulator variant building this node's submission yields.
pub open spec fn builds_kind(f: GpuFuture) -> SubmitKind
    decreases f,
{
    match f {
        GpuFuture::Dummy { .. } => SubmitKind::Nothing,
        GpuFuture::Join(j) => merge_kind(builds_kind(*j.first), builds_kind(*j.second)),
        GpuFuture::SemaphoreSignal(s) => if s.flushed {
            SubmitKind::Waits
        } else if builds_kind(*s.previous) is Presents || builds_kind(*s.previous) is Illegal {
            SubmitKind::Illegal
        } else {
            SubmitKind::Waits
        },
        GpuFuture::FenceSignal(fs) => match fs.state {
            FenceSignalState::Pending(p, _) => if builds_kind(*p) is Illegal {
                SubmitKind::Illegal
            } else {
                SubmitKind::Nothing
            },
            FenceSignalState::PartiallyFlushed(p, _) => if builds_kind(*p) is Illegal {
                SubmitKind::Illegal
            } else {
                SubmitKind::Nothing
            },
            _ => SubmitKind::Nothing,
        },
        GpuFuture::Execute(e) => if e.submitted {
            SubmitKind::Nothing
        } else if builds_kind(*e.previous) is Presents || builds_kind(*e.previous) is Illegal {
            SubmitKind::Illegal
        } else {
            SubmitKind::Commands
        },
        GpuFuture::Present(p) => if p.flushed {
            SubmitKind::Nothing
        } else if builds_kind(*p.previous) is Commands || builds_kind(*p.previous) is Illegal {
            SubmitKind::Illegal
        } else {
            SubmitKind::Presents
        },
        GpuFuture::SharedFenceSignal(_) => SubmitKind::Nothing,
    }
}

/// Whether flushing this node can only fail through the device refusing a
/// submission, never through an illegal composition.
pub open spec fn flush_legal(f: GpuFuture) -> bool
    decreases f,
{
    match f {
        GpuFuture::Dummy { .. } => true,
        GpuFuture::Join(j) => flush_legal(*j.first) && flush_legal(*j.second),
        GpuFuture::SemaphoreSignal(s) => s.flushed || !(builds_kind(*s.previous) is Presents
            || builds_kind(*s.previous) is Illegal),
        GpuFuture::FenceSignal(fs) => match fs.state {
            FenceSignalState::Pending(p, _) => !(builds_kind(*p) is Illegal),
            FenceSignalState::PartiallyFlushed(p, _) => !(builds_kind(*p) is Illegal),
            _ => true,
        },
        GpuFuture::Execute(e) => e.submitted || !(builds_kind(*e.previous) is Presents
            || builds_kind(*e.previous) is Illegal),
        GpuFuture::Present(p) => p.flushed || !(builds_kind(*p.previous) is Commands
            || builds_kind(*p.previous) is Illegal),
        GpuFuture::SharedFenceSignal(_) => true,
    }
}

// ------------------------------------------------------------------
// What a build yields, at the specification level: the exact contents
// of the accumulator a chain folds into.
// ------------------------------------------------------------------

/// The semaphores the built accumulator waits on, in order.
pub open spec fn built_waits(f: GpuFuture) -> Seq<u64>
    decreases f,
{
    match f {
        GpuFuture::Dummy { .. } => Seq::empty(),
        GpuFuture::Join(j) => {
            let ka = builds_kind(*j.first);
            let kb = builds_kind(*j.second);
            if ka is Nothing {
                built_waits(*j.second)
            } else if kb is Nothing {
                built_waits(*j.first)
            } else if ka is Waits && kb is Waits {
                built_waits(*j.first) + built_waits(*j.second)
            } else if ka is Waits {
                built_waits(*j.first)
            } else if kb is Waits {
                built_waits(*j.second)
            } else if ka is Commands && kb is Commands {
                built_waits(*j.first) + built_waits(*j.second)
            } else {
                Seq::empty()
            }
        },
        GpuFuture::SemaphoreSignal(s) => seq![s.semaphore],
        GpuFuture::FenceSignal(_) => Seq::empty(),
        GpuFuture::Execute(e) => if e.submitted {
            Seq::empty()
        } else {
            built_waits(*e.previous)
        },
        GpuFuture::Present(p) => if p.flushed {
            Seq::empty()
        } else {
            built_waits(*p.previous)
        },
        GpuFuture::SharedFenceSignal(_) => Seq::empty(),
    }
}

/// The command buffers the built accumulator carries, in order.
pub open spec fn built_cbs(f: GpuFuture) -> Seq<u64>
    decreases f,
{
    match f {
        GpuFuture::Dummy { .. } => Seq::empty(),
        GpuFuture::Join(j) => {
            let ka = builds_kind(*j.first);
            let kb = builds_kind(*j.second);
            if ka is Nothing {
                built_cbs(*j.second)
            } else if kb is Nothing {
                built_cbs(*j.first)
            } else if ka is Commands && kb is Commands {
                built_cbs(*j.first) + built_cbs(*j.second)
            } else {
                Seq::empty()
            }
        },
        GpuFuture::SemaphoreSignal(_) => Seq::empty(),
        GpuFuture::FenceSignal(_) => Seq::empty(),
        GpuFuture::Execute(e) => if e.submitted {
            Seq::empty()
        } else {
            built_cbs(*e.previous).push(e.command_buffer.id)
        },
        GpuFuture::Present(_) => Seq::empty(),
        GpuFuture::SharedFenceSignal(_) => Seq::empty(),
    }
}

/// The swapchain images the built accumulator presents, in order.
pub open spec fn built_images(f: GpuFuture) -> Seq<(u64, u64)>
    decreases f,
{
    match f {
        GpuFuture::Dummy { .. } => Seq::empty(),
        GpuFuture::Join(j) => {
            let ka = builds_kind(*j.first);
            let kb = builds_kind(*j.second);
            if ka is Nothing {
                built_images(*j.second)
            } else if kb is Nothing {
                built_images(*j.first)
            } else {
                Seq::empty()
            }
        },
        GpuFuture::SemaphoreSignal(_) => Seq::empty(),
        GpuFuture::FenceSignal(_) => Seq::empty(),
        GpuFuture::Execute(_) => Seq::empty(),
        GpuFuture::Present(p) => if p.flushed {
            Seq::empty()
        } else {
            built_images(*p.previous).push((p.swapchain, p.image_index))
        },
        GpuFuture::SharedFenceSignal(_) => Seq::empty(),
    }
}

/// A chain that builds nothing carries no waits, no command buffers and no
/// images.
pub proof fn lemma_nothing_builds_empty(f: GpuFuture)
    requires
        builds_kind(f) is Nothing,
    ensures
        built_waits(f) == Seq::<u64>::empty(),
        built_cbs(f) == Seq::<u64>::empty(),
        built_images(f) == Seq::<(u64, u64)>::empty(),
    decreases height(f),
{
    match f {
        GpuFuture::Join(j) => {
            let ka = builds_kind(*j.first);
            let kb = builds_kind(*j.second);
            if ka is Nothing {
                lemma_nothing_builds_empty(*j.first);
            }
            if kb is Nothing {
                lemma_nothing_builds_empty(*j.second);
            }
        },
        _ => {},
    }
}

/// A chain that builds a wait set carries no command buffers and no images.
pub proof fn lemma_waits_builds_no_batch(f: GpuFuture)
    requires
        builds_kind(f) is Waits,
    ensures
        built_cbs(f) == Seq::<u64>::empty(),
        built_images(f) == Seq::<(u64, u64)>::empty(),
    decreases height(f),
{
    match f {
        GpuFuture::Join(j) => {
            let ka = builds_kind(*j.first);
            let kb = builds_kind(*j.second);
            if ka is Nothing {
                lemma_nothing_builds_empty(*j.first);
                lemma_waits_builds_no_batch(*j.second);
            } else if kb is Nothing {
                lemma_nothing_builds_empty(*j.second);
                lemma_waits_builds_no_batch(*j.first);
            }
        },
        _ => {},
    }
}

/// Whether the two accumulator kinds fall in a cell of the merge table that
/// submits eagerly.
pub open spec fn eager_cell(a: SubmitKind, b: SubmitKind) -> bool {
    ||| (a is Waits && (b is Commands || b is Presents))
    ||| ((a is Commands || a is Presents) && b is Waits)
    ||| (a is Presents && b is Presents)
}

/// Whether building this node's submission records nothing on the device:
/// no node of the chain still owes its own submission, and no join cell
/// submits eagerly.
pub open spec fn quiet(f: GpuFuture) -> bool
    decreases f,
{
    match f {
        GpuFuture::Dummy { .. } => true,
        GpuFuture::Join(j) => quiet(*j.first) && quiet(*j.second) && !eager_cell(
            builds_kind(*j.first),
            builds_kind(*j.second),
        ),
        GpuFuture::SemaphoreSignal(s) => s.flushed,
        GpuFuture::FenceSignal(fs) => fence_flushed(fs),
        GpuFuture::Execute(e) => e.submitted || quiet(*e.previous),
        GpuFuture::Present(p) => p.flushed || quiet(*p.previous),
        GpuFuture::SharedFenceSignal(_) => true,
    }
}

/// Whether the node may be marked as flushed outright: everything it would
/// still submit has been handed to the device by somebody else (the eager
/// cells of a join), so only the flags need setting.
pub open spec fn mark_ready(f: GpuFuture) -> bool
    decreases f,
{
    is_flushed(f) || match f {
        GpuFuture::Join(j) => mark_ready(*j.first) && mark_ready(*j.second),
        GpuFuture::Execute(e) => signal_ready(*e.previous),
        GpuFuture::Present(p) => signal_ready(*p.previous),
        _ => false,
    }
}

/// A flushed chain may be declared finished.
pub proof fn lemma_flushed_signal_ready(f: GpuFuture, dev: Device)
    requires
        wf(f, dev),
        is_flushed(f),
    ensures
        signal_ready(f),
    decreases height(f),
{
    match f {
        GpuFuture::Dummy { .. } => {},
        GpuFuture::Join(j) => {
            lemma_flushed_signal_ready(*j.first, dev);
            lemma_flushed_signal_ready(*j.second, dev);
        },
        GpuFuture::SemaphoreSignal(s) => {
            assert(signal_ready(*s.previous));
        },
        GpuFuture::FenceSignal(fs) => {
            assert(fence_wf(fs, dev));
            match fs.state {
                FenceSignalState::Flushed(p, fc) => {
                    assert(fs.state == FenceSignalState::Flushed(p, fc));
                    assert(signal_ready(*p));
                    assert(fence_signal_ready(fs));
                },
                _ => {
                    assert(fence_signal_ready(fs));
                },
            }
            assert(signal_ready(f));
        },
        GpuFuture::Execute(e) => {
            assert(signal_ready(*e.previous));
        },
        GpuFuture::Present(p) => {
            assert(signal_ready(*p.previous));
        },
        GpuFuture::SharedFenceSignal(sh) => {
            assert(fence_wf(sh.inner, dev));
            match sh.inner.state {
                FenceSignalState::Flushed(p, fc) => {
                    assert(sh.inner.state == FenceSignalState::Flushed(p, fc));
                    assert(signal_ready(*p));
                    assert(fence_signal_ready(sh.inner));
                },
                _ => {
                    assert(fence_signal_ready(sh.inner));
                },
            }
            assert(signal_ready(f));
        },
    }
}

// ------------------------------------------------------------------
// The fence-signal node's payload, at the specification level.
// ------------------------------------------------------------------

/// The fence a fence-signal state holds, if any.
pub open spec fn fence_id_of(st: FenceSignalState) -> Option<u64> {
    match st {
        FenceSignalState::Pending(_, fc) => Some(fc),
        FenceSignalState::PartiallyFlushed(_, fc) => Some(fc),
        FenceSignalState::Flushed(_, fc) => Some(fc),
        FenceSignalState::Cleaned => None,
        FenceSignalState::Poisoned => None,
    }
}

/// The predecessor a fence-signal state holds, if any.
pub open spec fn held_prev(st: FenceSignalState) -> Option<GpuFuture> {
    match st {
        FenceSignalState::Pending(p, _) => Some(*p),
        FenceSignalState::PartiallyFlushed(p, _) => Some(*p),
        FenceSignalState::Flushed(p, _) => Some(*p),
        FenceSignalState::Cleaned => None,
        FenceSignalState::Poisoned => None,
    }
}

// ------------------------------------------------------------------
// What a cleanup probe does, node for node.
// ------------------------------------------------------------------

/// How a fence-signal node relates to itself after a cleanup probe: a
/// flushed node whose fence the device signalled is cleaned, everything
/// else stays exactly as it was.
pub open spec fn fence_cleanup_rel(pre: FenceSignalFuture, post: FenceSignalFuture, dev: Device) -> bool {
    post.device == pre.device && match pre.state {
        FenceSignalState::Flushed(p, fc) => if dev.fences@[fc as int] is Signalled {
            post.state is Cleaned
        } else {
            post.state == pre.state
        },
        _ => post.state == pre.state,
    }
}

/// How a node relates to itself after a cleanup probe: every fence-signal
/// node on the chain is probed as `fence_cleanup_rel` says; nothing else
/// changes.
pub open spec fn cleanup_rel(pre: GpuFuture, post: GpuFuture, dev: Device) -> bool
    decreases pre,
{
    match pre {
        GpuFuture::Dummy { .. } => post == pre,
        GpuFuture::Join(j) => post matches GpuFuture::Join(j2) && cleanup_rel(
            *j.first,
            *j2.first,
            dev,
        ) && cleanup_rel(*j.second, *j2.second, dev),
        GpuFuture::SemaphoreSignal(s) => post matches GpuFuture::SemaphoreSignal(s2)
            && s2.semaphore == s.semaphore && s2.flushed == s.flushed && cleanup_rel(
            *s.previous,
            *s2.previous,
            dev,
        ),
        GpuFuture::FenceSignal(fs) => post matches GpuFuture::FenceSignal(fs2)
            && fence_cleanup_rel(fs, fs2, dev),
        GpuFuture::Execute(e) => post matches GpuFuture::Execute(e2) && e2.queue == e.queue
            && e2.command_buffer == e.command_buffer && e2.submitted == e.submitted && cleanup_rel(
            *e.previous,
            *e2.previous,
            dev,
        ),
        GpuFuture::Present(p) => post matches GpuFuture::Present(p2) && p2.queue == p.queue
            && p2.swapchain == p.swapchain && p2.image_index == p.image_index && p2.flushed
            == p.flushed && cleanup_rel(*p.previous, *p2.previous, dev),
        GpuFuture::SharedFenceSignal(sh) => post matches GpuFuture::SharedFenceSignal(sh2)
            && fence_cleanup_rel(sh.inner, sh2.inner, dev),
    }
}

// ------------------------------------------------------------------
// Well-formedness: what construction establishes and every operation
// preserves.
// ------------------------------------------------------------------

/// Well-formedness of a fence-signal node against a device: the fence is one
/// the device allocated; while a predecessor is held it has a known queue on
/// the node's device; once flushed, the fence rode on an accepted submission
/// and the whole predecessor chain may be declared finished.
pub open spec fn fence_wf(fs: FenceSignalFuture, dev: Device) -> bool
    decreases fs,
{
    match fs.state {
        FenceSignalState::Pending(p, fc) => wf(*p, dev) && queue_of(*p) is Some && device_of(*p)
            == fs.device && (fc as int) < dev.fences@.len(),
        FenceSignalState::PartiallyFlushed(p, fc) => wf(*p, dev) && queue_of(*p) is Some
            && device_of(*p) == fs.device && (fc as int) < dev.fences@.len(),
        FenceSignalState::Flushed(p, fc) => wf(*p, dev) && queue_of(*p) is Some && device_of(*p)
            == fs.device && (fc as int) < dev.fences@.len() && !(dev.fences@[fc as int]
            is Unsubmitted) && signal_ready(*p),
        FenceSignalState::Cleaned => true,
        FenceSignalState::Poisoned => true,
    }
}

/// Well-formedness of a node against a device: all nodes of a chain share one
/// device, every pinned queue lies on that device, a join of two pinned
/// sides agrees on the queue, and a node that was flushed can declare its
/// predecessor finished.
pub open spec fn wf(f: GpuFuture, dev: Device) -> bool
    decreases f,
{
    match f {
        GpuFuture::Dummy { device, queue } => match queue {
            Some(q) => q.device == device,
            None => true,
        },
        GpuFuture::Join(j) => wf(*j.first, dev) && wf(*j.second, dev) && device_of(*j.second)
            == device_of(*j.first) && (!(queue_change_allowed_of(*j.first)
            || queue_change_allowed_of(*j.second)) ==> queue_of(*j.first) is Some && queue_of(
            *j.second,
        ) == queue_of(*j.first)),
        GpuFuture::SemaphoreSignal(s) => wf(*s.previous, dev) && queue_of(*s.previous) is Some && (
        s.flushed ==> signal_ready(*s.previous)),
        GpuFuture::FenceSignal(fs) => fence_wf(fs, dev),
        GpuFuture::Execute(e) => wf(*e.previous, dev) && e.queue.device == device_of(*e.previous)
            && e.command_buffer.device == device_of(*e.previous) && (!queue_change_allowed_of(
            *e.previous,
        ) ==> queue_of(*e.previous) == Some(e.queue)) && (e.submitted ==> signal_ready(
            *e.previous,
        )),
        GpuFuture::Present(p) => wf(*p.previous, dev) && p.queue.device == device_of(*p.previous)
            && (!queue_change_allowed_of(*p.previous) ==> queue_of(*p.previous) == Some(p.queue))
            && (p.flushed ==> signal_ready(*p.previous)),
        GpuFuture::SharedFenceSignal(sh) => fence_wf(sh.inner, dev) && fence_flushed(sh.inner),
    }
}

/// Well-formedness only reads the device through facts that its evolution
/// preserves, so it survives any operation on the device.
pub proof fn lemma_wf_evolves(f: GpuFuture, a: Device, b: Device)
    requires
        wf(f, a),
        a.evolves_to(b),
    ensures
        wf(f, b),
    decreases height(f),
{
    match f {
        GpuFuture::Dummy { .. } => {},
        GpuFuture::Join(j) => {
            lemma_wf_evolves(*j.first, a, b);
            lemma_wf_evolves(*j.second, a, b);
        },
        GpuFuture::SemaphoreSignal(s) => {
            lemma_wf_evolves(*s.previous, a, b);
        },
        GpuFuture::FenceSignal(fs) => {
            lemma_fence_wf_evolves(fs, a, b);
        },
        GpuFuture::Execute(e) => {
            lemma_wf_evolves(*e.previous, a, b);
        },
        GpuFuture::Present(p) => {
            lemma_wf_evolves(*p.previous, a, b);
        },
        GpuFuture::SharedFenceSignal(sh) => {
            lemma_fence_wf_evolves(sh.inner, a, b);
        },
    }
}

/// As `lemma_wf_evolves`, for the fence-signal node.
pub proof fn lemma_fence_wf_evolves(fs: FenceSignalFuture, a: Device, b: Device)
    requires
        fence_wf(fs, a),
        a.evolves_to(b),
    ensures
        fence_wf(fs, b),
    decreases fence_height(fs),
{
    match fs.state {
        FenceSignalState::Pending(p, _) => {
            lemma_wf_evolves(*p, a, b);
        },
        FenceSignalState::PartiallyFlushed(p, _) => {
            lemma_wf_evolves(*p, a, b);
        },
        FenceSignalState::Flushed(p, fc) => {
            lemma_wf_evolves(*p, a, b);
            assert(crate::device::fence_status_le(a.fences@[fc as int], b.fences@[fc as int]));
        },
        FenceSignalState::Cleaned => {},
        FenceSignalState::Poisoned => {},
    }
}

/// A node with nothing left to submit builds the empty accumulator or a
/// set of semaphore waits, never a fresh batch.
pub proof fn lemma_flushed_kind(f: GpuFuture)
    requires
        is_flushed(f),
    ensures
        builds_kind(f) is Nothing || builds_kind(f) is Waits,
    decreases height(f),
{
    match f {
        GpuFuture::Join(j) => {
            lemma_flushed_kind(*j.first);
            lemma_flushed_kind(*j.second);
        },
        _ => {},
    }
}

/// A chain that will yield a command-buffer or a present batch knows the
/// queue to submit it on, and that queue lies on the chain's device.
pub proof fn lemma_kind_queue(f: GpuFuture, dev: Device)
    requires
        wf(f, dev),
    ensures
        builds_kind(f) is Commands || builds_kind(f) is Presents ==> queue_of(f) is Some,
        queue_of(f) matches Some(q) ==> q.device == device_of(f),
    decreases height(f),
{
    match f {
        GpuFuture::Dummy { .. } => {},
        GpuFuture::Join(j) => {
            lemma_kind_queue(*j.first, dev);
            lemma_kind_queue(*j.second, dev);
        },
        GpuFuture::SemaphoreSignal(s) => {
            lemma_kind_queue(*s.previous, dev);
        },
        GpuFuture::FenceSignal(_) => {},
        GpuFuture::Execute(e) => {
            lemma_kind_queue(*e.previous, dev);
        },
        GpuFuture::Present(p) => {
            lemma_kind_queue(*p.previous, dev);
        },
        GpuFuture::SharedFenceSignal(_) => {},
    }
}

// ------------------------------------------------------------------
// Resource-access checks, at the specification level.
// ------------------------------------------------------------------

/// The first recorded use of a resource, scanning front to back.
pub open spec fn find_use(uses: Seq<ResourceUse>, resource: u64) -> Option<ResourceUse>
    decreases uses.len(),
{
    if uses.len() == 0 {
        None
    } else if uses[0].resource == resource {
        Some(uses[0])
    } else {
        find_use(uses.drop_first(), resource)
    }
}

/// How a join combines its children's answers to an access check: one
/// positive answer wins, two positive answers take the union of stages and
/// access flags, two unknowns stay unknown.
pub open spec fn combine_access(
    a: Result<Option<(PipelineStages, AccessFlagBits)>, ()>,
    b: Result<Option<(PipelineStages, AccessFlagBits)>, ()>,
) -> Result<Option<(PipelineStages, AccessFlagBits)>, ()> {
    match (a, b) {
        (Ok(v), Err(e)) => Ok(v),
        (Err(e), Ok(v)) => Ok(v),
        (Err(e1), Err(e2)) => Err(()),
        (Ok(None), Ok(None)) => Ok(None),
        (Ok(Some(v)), Ok(None)) => Ok(Some(v)),
        (Ok(None), Ok(Some(v))) => Ok(Some(v)),
        (Ok(Some((s1, a1))), Ok(Some((s2, a2)))) => Ok(Some((s1.or_spec(s2), a1.or_spec(a2)))),
    }
}

/// What the recorded uses of one command buffer answer: a use of the
/// resource on the node's own queue grants the request (an exclusive request
/// needs an exclusive use) and reports the recorded stages and access; a use
/// that cannot grant the request answers unknown; an untouched resource
/// defers to the rest of the chain.
pub open spec fn use_grant(
    uses: Seq<ResourceUse>,
    resource: u64,
    exclusive: bool,
    queue: QueueRef,
    own_queue: QueueRef,
    from_previous: Result<Option<(PipelineStages, AccessFlagBits)>, ()>,
) -> Result<Option<(PipelineStages, AccessFlagBits)>, ()> {
    match find_use(uses, resource) {
        Some(u) => if queue == own_queue && (u.exclusive || !exclusive) {
            Ok(Some((u.stages, u.access)))
        } else {
            Err(())
        },
        None => from_previous,
    }
}

/// Whether the chain grants the requested access to a buffer, and the
/// latest recorded use to barrier against.
pub open spec fn check_buffer_spec(
    f: GpuFuture,
    buffer: u64,
    exclusive: bool,
    queue: QueueRef,
) -> Result<Option<(PipelineStages, AccessFlagBits)>, ()>
    decreases f,
{
    match f {
        GpuFuture::Dummy { .. } => Err(()),
        GpuFuture::Join(j) => combine_access(
            check_buffer_spec(*j.first, buffer, exclusive, queue),
            check_buffer_spec(*j.second, buffer, exclusive, queue),
        ),
        GpuFuture::SemaphoreSignal(s) => check_buffer_spec(*s.previous, buffer, exclusive, queue),
        GpuFuture::FenceSignal(fs) => match fs.state {
            FenceSignalState::Pending(p, _) => check_buffer_spec(*p, buffer, exclusive, queue),
            FenceSignalState::PartiallyFlushed(p, _) => check_buffer_spec(
                *p,
                buffer,
                exclusive,
                queue,
            ),
            FenceSignalState::Flushed(p, _) => check_buffer_spec(*p, buffer, exclusive, queue),
            FenceSignalState::Cleaned => Err(()),
            FenceSignalState::Poisoned => Err(()),
        },
        GpuFuture::Execute(e) => use_grant(
            e.command_buffer.buffer_uses@,
            buffer,
            exclusive,
            queue,
            e.queue,
            check_buffer_spec(*e.previous, buffer, exclusive, queue),
        ),
        GpuFuture::Present(p) => check_buffer_spec(*p.previous, buffer, exclusive, queue),
        GpuFuture::SharedFenceSignal(sh) => match sh.inner.state {
            FenceSignalState::Pending(p, _) => check_buffer_spec(*p, buffer, exclusive, queue),
            FenceSignalState::PartiallyFlushed(p, _) => check_buffer_spec(
                *p,
                buffer,
                exclusive,
                queue,
            ),
            FenceSignalState::Flushed(p, _) => check_buffer_spec(*p, buffer, exclusive, queue),
            FenceSignalState::Cleaned => Err(()),
            FenceSignalState::Poisoned => Err(()),
        },
    }
}

/// As `check_buffer_spec`, for an image.
pub open spec fn check_image_spec(
    f: GpuFuture,
    image: u64,
    exclusive: bool,
    queue: QueueRef,
) -> Result<Option<(PipelineStages, AccessFlagBits)>, ()>
    decreases f,
{
    match f {
        GpuFuture::Dummy { .. } => Err(()),
        GpuFuture::Join(j) => combine_access(
            check_image_spec(*j.first, image, exclusive, queue),
            check_image_spec(*j.second, image, exclusive, queue),
        ),
        GpuFuture::SemaphoreSignal(s) => check_image_spec(*s.previous, image, exclusive, queue),
        GpuFuture::FenceSignal(fs) => match fs.state {
            FenceSignalState::Pending(p, _) => check_image_spec(*p, image, exclusive, queue),
            FenceSignalState::PartiallyFlushed(p, _) => check_image_spec(
                *p,
                image,
                exclusive,
                queue,
            ),
            FenceSignalState::Flushed(p, _) => check_image_spec(*p, image, exclusive, queue),
            FenceSignalState::Cleaned => Err(()),
            FenceSignalState::Poisoned => Err(()),
        },
        GpuFuture::Execute(e) => use_grant(
            e.command_buffer.image_uses@,
            image,
            exclusive,
            queue,
            e.queue,
            check_image_spec(*e.previous, image, exclusive, queue),
        ),
        GpuFuture::Present(p) => check_image_spec(*p.previous, image, exclusive, queue),
        GpuFuture::SharedFenceSignal(sh) => match sh.inner.state {
            FenceSignalState::Pending(p, _) => check_image_spec(*p, image, exclusive, queue),
            FenceSignalState::PartiallyFlushed(p, _) => check_image_spec(
                *p,
                image,
                exclusive,
                queue,
            ),
            FenceSignalState::Flushed(p, _) => check_image_spec(*p, image, exclusive, queue),
            FenceSignalState::Cleaned => Err(()),
            FenceSignalState::Poisoned => Err(()),
        },
    }
}

/// Whether some join inside the node has both sides granting exclusive
/// access to the buffer: the double-exclusive claim that access checks must
/// never meet.
pub open spec fn buffer_conflict(f: GpuFuture, buffer: u64, queue: QueueRef) -> bool
    decreases f,
{
    match f {
        GpuFuture::Dummy { .. } => false,
        GpuFuture::Join(j) => (check_buffer_spec(*j.first, buffer, true, queue) is Ok
            && check_buffer_spec(*j.second, buffer, true, queue) is Ok) || buffer_conflict(
            *j.first,
            buffer,
            queue,
        ) || buffer_conflict(*j.second, buffer, queue),
        GpuFuture::SemaphoreSignal(s) => buffer_conflict(*s.previous, buffer, queue),
        GpuFuture::FenceSignal(fs) => match fs.state {
            FenceSignalState::Pending(p, _) => buffer_conflict(*p, buffer, queue),
            FenceSignalState::PartiallyFlushed(p, _) => buffer_conflict(*p, buffer, queue),
            FenceSignalState::Flushed(p, _) => buffer_conflict(*p, buffer, queue),
            FenceSignalState::Cleaned => false,
            FenceSignalState::Poisoned => false,
        },
        GpuFuture::Execute(e) => buffer_conflict(*e.previous, buffer, queue),
        GpuFuture::Present(p) => buffer_conflict(*p.previous, buffer, queue),
        GpuFuture::SharedFenceSignal(sh) => match sh.inner.state {
            FenceSignalState::Pending(p, _) => buffer_conflict(*p, buffer, queue),
            FenceSignalState::PartiallyFlushed(p, _) => buffer_conflict(*p, buffer, queue),
            FenceSignalState::Flushed(p, _) => buffer_conflict(*p, buffer, queue),
            FenceSignalState::Cleaned => false,
            FenceSignalState::Poisoned => false,
        },
    }
}

/// As `buffer_conflict`, for an image.
pub open spec fn image_conflict(f: GpuFuture, image: u64, queue: QueueRef) -> bool
    decreases f,
{
    match f {
        GpuFuture::Dummy { .. } => false,
        GpuFuture::Join(j) => (check_image_spec(*j.first, image, true, queue) is Ok
            && check_image_spec(*j.second, image, true, queue) is Ok) || image_conflict(
            *j.first,
            image,
            queue,
        ) || image_conflict(*j.second, image, queue),
        GpuFuture::SemaphoreSignal(s) => image_conflict(*s.previous, image, queue),
        GpuFuture::FenceSignal(fs) => match fs.state {
            FenceSignalState::Pending(p, _) => image_conflict(*p, image, queue),
            FenceSignalState::PartiallyFlushed(p, _) => image_conflict(*p, image, queue),
            FenceSignalState::Flushed(p, _) => image_conflict(*p, image, queue),
            FenceSignalState::Cleaned => false,
            FenceSignalState::Poisoned => false,
        },
        GpuFuture::Execute(e) => image_conflict(*e.previous, image, queue),
        GpuFuture::Present(p) => image_conflict(*p.previous, image, queue),
        GpuFuture::SharedFenceSignal(sh) => match sh.inner.state {
            FenceSignalState::Pending(p, _) => image_conflict(*p, image, queue),
            FenceSignalState::PartiallyFlushed(p, _) => image_conflict(*p, image, queue),
            FenceSignalState::Flushed(p, _) => image_conflict(*p, image, queue),
            FenceSignalState::Cleaned => false,
            FenceSignalState::Poisoned => false,
        },
    }
}

/// Both sides of a join granting exclusive access to one resource is what
/// the double-exclusive claim means; such a join always reports a conflict.
pub proof fn lemma_double_exclusive_is_conflict(j: JoinFuture, buffer: u64, queue: QueueRef)
    requires
        check_buffer_spec(*j.first, buffer, true, queue) is Ok,
        check_buffer_spec(*j.second, buffer, true, queue) is Ok,
    ensures
        buffer_conflict(GpuFuture::Join(j), buffer, queue),
{
}

/// Scans a use list for the first entry about a resource.
fn find_resource_use(uses: &Vec<ResourceUse>, resource: u64) -> (r: Option<ResourceUse>)
    ensures
        r == find_use(uses@, resource),
{
    let n = uses.len();
    let mut i: usize = 0;
    proof {
        assert(uses@.skip(0) == uses@);
    }
    while i < n
        invariant
            n == uses@.len(),
            i <= n,
            find_use(uses@, resource) == find_use(uses@.skip(i as int), resource),
        decreases n - i,
    {
        proof {
            assert(uses@.skip(i as int).drop_first() == uses@.skip(i + 1));
            assert(uses@.skip(i as int)[0] == uses@[i as int]);
        }
        if uses[i].resource == resource {
            return Some(uses[i]);
        }
        i = i + 1;
    }
    proof {
        assert(uses@.skip(n as int).len() == 0);
    }
    None
}

// ------------------------------------------------------------------
// Flushing and building submissions.
// ------------------------------------------------------------------

/// What every operation leaves alone: the node keeps its device, its target
/// queue and its queue-change permission.
pub open spec fn stable_profile(pre: GpuFuture, post: GpuFuture) -> bool {
    &&& device_of(post) == device_of(pre)
    &&& queue_of(post) == queue_of(pre)
    &&& queue_change_allowed_of(post) == queue_change_allowed_of(pre)
}

/// The transitions the fence-signal state machine allows (staying put
/// included).  Cleaned and Poisoned are terminal.
pub open spec fn fence_transition_ok(pre: FenceSignalState, post: FenceSignalState) -> bool {
    match pre {
        FenceSignalState::Pending(_, _) => post is Pending || post is PartiallyFlushed
            || post is Flushed,
        FenceSignalState::PartiallyFlushed(_, _) => post is PartiallyFlushed || post is Flushed,
        FenceSignalState::Flushed(_, _) => post is Flushed || post is Cleaned,
        FenceSignalState::Cleaned => post is Cleaned,
        FenceSignalState::Poisoned => post is Poisoned,
    }
}

impl FenceSignalFuture {
    /// Submits the work this node owns: builds the predecessor's
    /// accumulator, attaches the fence, and hands everything to the device.
    /// Idempotent: once flushed (or terminal) nothing happens.  On failure
    /// the node returns to a re-flushable state: a present that went through
    /// while the trailing fence-only batch was refused leaves the node
    /// partially flushed, and a retry re-runs only that second step.
    pub fn flush(&mut self, dev: &mut Device) -> (r: Result<(), FutureError>)
        requires
            fence_wf(*old(self), *old(dev)),
            old(self).device == old(dev).id,
        ensures
            fence_wf(*final (self), *final (dev)),
            old(dev).evolves_to(*final (dev)),
            final (self).device == old(self).device,
            fence_transition_ok(old(self).state, final (self).state),
            r is Ok ==> fence_flushed(*final (self)),
            fence_flushed(*old(self)) ==> r is Ok && *final (self) == *old(self)
                && crate::device::device_unchanged(*old(dev), *final (dev)),
            flush_legal(GpuFuture::FenceSignal(*old(self))) && old(dev).all_clear() ==> r is Ok,
            r is Ok ==> !(builds_kind(GpuFuture::FenceSignal(*old(self))) is Illegal),
            r matches Err(e) ==> e is SubmitRefused || e is IllegalComposition,
            r == Err::<(), FutureError>(FutureError::IllegalComposition) ==> builds_kind(
                GpuFuture::FenceSignal(*old(self)),
            ) is Illegal,
            stable_profile(
                GpuFuture::FenceSignal(*old(self)),
                GpuFuture::FenceSignal(*final (self)),
            ),
            fence_id_of(final (self).state) == fence_id_of(old(self).state),
            held_prev(final (self).state) matches Some(p2) ==> (held_prev(old(self).state)
                matches Some(p1) && stable_profile(p1, p2)),
            r is Err ==> (old(self).state matches FenceSignalState::Pending(p, fc) ==> (!(
            builds_kind(*p) is Presents) ==> final (self).state is Pending)),
            r is Err && old(self).state is PartiallyFlushed ==> final (self).state
                is PartiallyFlushed,
            r is Err && old(self).state is Pending && final (self).state is PartiallyFlushed
                ==> final (dev).submissions@.len() > old(dev).submissions@.len(),
            old(self).state matches FenceSignalState::Pending(p, fc) ==> (r is Ok ==> final (
            dev).submissions@.len() > old(dev).submissions@.len() && (final (
            dev).submissions@.last() matches crate::device::Submission::Execute {
                queue: q,
                wait_semaphores: w,
                command_buffers: c,
                signal_semaphores: sg,
                fence: fe,
            } && Some(q) == queue_of(*p) && fe == Some(fc) && sg@ == Seq::<u64>::empty() && (!(
            builds_kind(*p) is Presents) ==> w@ == built_waits(*p) && c@ == built_cbs(*p)) && (
            builds_kind(*p) is Presents ==> w@ == Seq::<u64>::empty() && c@
                == Seq::<u64>::empty()))),
            old(self).state matches FenceSignalState::PartiallyFlushed(p, fc) ==> (r is Ok
                ==> final (dev).submissions@.len() > old(dev).submissions@.len() && (final (
            dev).submissions@.last() matches crate::device::Submission::Execute {
                queue: q,
                wait_semaphores: w,
                command_buffers: c,
                signal_semaphores: sg,
                fence: fe,
            } && Some(q) == queue_of(*p) && fe == Some(fc) && sg@ == Seq::<u64>::empty() && (!(
            builds_kind(*p) is Presents) ==> w@ == built_waits(*p) && c@ == built_cbs(*p)) && (
            builds_kind(*p) is Presents ==> w@ == Seq::<u64>::empty() && c@
                == Seq::<u64>::empty()))),
            old(self).state matches FenceSignalState::Pending(p, fc) ==> (r is Ok && builds_kind(
                *p,
            ) is Presents ==> final (dev).submissions@.len() >= old(dev).submissions@.len() + 2
                && (final (dev).submissions@[final (dev).submissions@.len() - 2]
                matches crate::device::Submission::Present { queue: q, wait_semaphores: w, images: im }
                && Some(q) == queue_of(*p) && w@ == built_waits(*p) && im@ == built_images(*p))),
            old(self).state matches FenceSignalState::Pending(p, fc) ==> (r is Ok && quiet(*p)
                && !(builds_kind(*p) is Presents) ==> final (dev).submissions@.len() == old(dev).submissions@.len() + 1),
            old(self).state matches FenceSignalState::Pending(p, fc) ==> (r is Ok && quiet(*p)
                && builds_kind(*p) is Presents ==> final (dev).submissions@.len() == old(dev).submissions@.len() + 2),
            old(self).state matches FenceSignalState::PartiallyFlushed(p, fc) ==> (r is Ok
                && quiet(*p) ==> final (dev).submissions@.len() == old(dev).submissions@.len()
                + 1),
        decreases fence_height(*self), 0nat,
    {
        proof {
            crate::device::lemma_evolves_refl(*dev);
        }
        let mut taken = FenceSignalState::Poisoned;
        core::mem::swap(&mut self.state, &mut taken);
        let (mut previous, fence, partially) = match taken {
            FenceSignalState::Pending(p, fc) => (p, fc, false),
            FenceSignalState::PartiallyFlushed(p, fc) => (p, fc, true),
            other => {
                self.state = other;
                return Ok(());
            },
        };
        proof {
            assert(taken == old(self).state);
            assert(height(*previous) < fence_height(*old(self)));
        }
        let queue = match (*previous).queue() {
            Some(q) => q,
            None => {
                self.state = if partially {
                    FenceSignalState::PartiallyFlushed(previous, fence)
                } else {
                    FenceSignalState::Pending(previous, fence)
                };
                return Err(FutureError::MissingQueue);
            },
        };
        proof {
            lemma_kind_queue(*previous, *old(dev));
        }
        let ghost prev0 = *previous;
        let built = previous.build_submission(dev);
        let sub = match built {
            Ok(s) => s,
            Err(e) => {
                self.state = if partially {
                    FenceSignalState::PartiallyFlushed(previous, fence)
                } else {
                    FenceSignalState::Pending(previous, fence)
                };
                return Err(e);
            },
        };
        proof {
            if old(dev).all_clear() {
                crate::device::lemma_all_clear_evolves(*old(dev), *dev);
            }
        }
        let ghost dev_built = *dev;
        let outcome: Result<(), FutureError> = match sub {
            SubmitAnyBuilder::Empty => {
                proof {
                    lemma_nothing_builds_empty(prev0);
                }
                let mut b = SubmitCommandBufferBuilder::new();
                b.set_fence_signal(fence);
                b.submit(queue, dev)
            },
            SubmitAnyBuilder::SemaphoresWait(w) => {
                proof {
                    lemma_waits_builds_no_batch(prev0);
                }
                let mut b = w.into_command_buffer_builder();
                b.set_fence_signal(fence);
                b.submit(queue, dev)
            },
            SubmitAnyBuilder::CommandBuffer(mut cb) => {
                cb.set_fence_signal(fence);
                cb.submit(queue, dev)
            },
            SubmitAnyBuilder::QueuePresent(p) => {
                let step_one: Result<(), FutureError> = if partially {
                    Ok(())
                } else {
                    p.submit(queue, dev)
                };
                match step_one {
                    Ok(()) => {
                        let ghost dev_one = *dev;
                        proof {
                            crate::device::lemma_evolves_refl(dev_built);
                            crate::device::lemma_evolves_trans(*old(dev), dev_built, dev_one);
                            if old(dev).all_clear() {
                                crate::device::lemma_all_clear_evolves(*old(dev), *dev);
                            }
                            lemma_wf_evolves(*previous, dev_built, dev_one);
                        }
                        let mut b = SubmitCommandBufferBuilder::new();
                        b.set_fence_signal(fence);
                        match b.submit(queue, dev) {
                            Ok(()) => {
                                proof {
                                    crate::device::lemma_evolves_trans(dev_built, dev_one, *dev);
                                }
                                Ok(())
                            },
                            Err(e) => {
                                proof {
                                    lemma_wf_evolves(*previous, dev_one, *dev);
                                    crate::device::lemma_evolves_trans(*old(dev), dev_one, *dev);
                                }
                                self.state = FenceSignalState::PartiallyFlushed(previous, fence);
                                return Err(e);
                            },
                        }
                    },
                    Err(e) => Err(e),
                }
            },
        };
        proof {
            lemma_wf_evolves(*previous, dev_built, *dev);
            crate::device::lemma_evolves_trans(*old(dev), dev_built, *dev);
        }
        match outcome {
            Ok(()) => {
                self.state = FenceSignalState::Flushed(previous, fence);
                Ok(())
            },
            Err(e) => {
                self.state = if partially {
                    FenceSignalState::PartiallyFlushed(previous, fence)
                } else {
                    FenceSignalState::Pending(previous, fence)
                };
                Err(e)
            },
        }
    }

    /// Ensures the node is flushed, then blocks on the fence with the
    /// generous ceiling.  The event has then been submitted and awaited, so
    /// successors need nothing: the result is always the empty accumulator.
    pub fn build_submission(&mut self, dev: &mut Device) -> (r: Result<
        SubmitAnyBuilder,
        FutureError,
    >)
        requires
            fence_wf(*old(self), *old(dev)),
            old(self).device == old(dev).id,
        ensures
            fence_wf(*final (self), *final (dev)),
            old(dev).evolves_to(*final (dev)),
            final (self).device == old(self).device,
            fence_transition_ok(old(self).state, final (self).state),
            r matches Ok(bb) ==> bb is Empty,
            r matches Ok(bb) ==> kind_of(bb) == builds_kind(GpuFuture::FenceSignal(*old(self))),
            r is Ok ==> fence_flushed(*final (self)) && fence_signal_ready(*final (self)),
            r matches Ok(SubmitAnyBuilder::SemaphoresWait(m2)) ==> m2.semaphores@
                == built_waits(GpuFuture::FenceSignal(*old(self))),
            r matches Ok(SubmitAnyBuilder::CommandBuffer(cb2)) ==> cb2.wait_semaphores@
                == built_waits(GpuFuture::FenceSignal(*old(self))) && cb2.command_buffers@ == built_cbs(GpuFuture::FenceSignal(*old(self)))
                && cb2.signal_semaphores@ == Seq::<u64>::empty(),
            r matches Ok(SubmitAnyBuilder::QueuePresent(pb2)) ==> pb2.wait_semaphores@
                == built_waits(GpuFuture::FenceSignal(*old(self))) && pb2.images@ == built_images(GpuFuture::FenceSignal(*old(self))),
            quiet(GpuFuture::FenceSignal(*old(self))) ==> final (dev).submissions@ == old(dev).submissions@,
            r is Ok ==> mark_ready(GpuFuture::FenceSignal(*final (self))),
            r == Err::<SubmitAnyBuilder, FutureError>(FutureError::IllegalComposition)
                ==> builds_kind(GpuFuture::FenceSignal(*old(self))) is Illegal,
            fence_flushed(*old(self)) ==> r is Ok && *final (self) == *old(self) && final (dev).submissions@ == old(dev).submissions@,
            flush_legal(GpuFuture::FenceSignal(*old(self))) && old(dev).all_clear() ==> r is Ok,
            r matches Err(e) ==> e is SubmitRefused || e is IllegalComposition,
            stable_profile(
                GpuFuture::FenceSignal(*old(self)),
                GpuFuture::FenceSignal(*final (self)),
            ),
        decreases fence_height(*self), 1nat,
    {
        match self.flush(dev) {
            Ok(()) => {},
            Err(e) => {
                return Err(e);
            },
        }
        let ghost dev_flushed = *dev;
        match &self.state {
            FenceSignalState::Flushed(_, fc) => {
                let fence = *fc;
                match dev.wait_fence(fence) {
                    Ok(()) => {
                        proof {
                            lemma_fence_wf_evolves(*self, dev_flushed, *dev);
                            crate::device::lemma_evolves_trans(*old(dev), dev_flushed, *dev);
                        }
                        Ok(SubmitAnyBuilder::Empty)
                    },
                    Err(_) => {
                        proof {
                            assert(false);
                        }
                        Err(FutureError::FenceWaitFailed)
                    },
                }
            },
            _ => Ok(SubmitAnyBuilder::Empty),
        }
    }
}

impl SharedFenceSignalFuture {
    /// Flushing through a shared handle: the wrapped node is already
    /// flushed, so nothing happens.
    pub fn flush(&mut self, dev: &mut Device) -> (r: Result<(), FutureError>)
        requires
            fence_wf(old(self).inner, *old(dev)),
            fence_flushed(old(self).inner),
            old(self).inner.device == old(dev).id,
        ensures
            r is Ok,
            *final (self) == *old(self),
            crate::device::device_unchanged(*old(dev), *final (dev)),
            old(dev).evolves_to(*final (dev)),
        decreases shared_height(*self), 0nat,
    {
        self.inner.flush(dev)
    }

    /// Building through a shared handle always yields the empty accumulator
    /// and performs no submission: the wrapped node was submitted exactly
    /// once through its own path, and aliases must never repeat it.
    pub fn build_submission(&mut self, dev: &mut Device) -> (r: Result<
        SubmitAnyBuilder,
        FutureError,
    >)
        requires
            fence_wf(old(self).inner, *old(dev)),
            fence_flushed(old(self).inner),
            old(self).inner.device == old(dev).id,
        ensures
            r matches Ok(bb) ==> bb is Empty,
            r is Ok,
            *final (self) == *old(self),
            fence_wf(final (self).inner, *final (dev)),
            fence_flushed(final (self).inner),
            fence_signal_ready(final (self).inner),
            final (dev).submissions@ == old(dev).submissions@,
            old(dev).evolves_to(*final (dev)),
            r is Ok ==> mark_ready(GpuFuture::SharedFenceSignal(*final (self))),
        decreases shared_height(*self), 1nat,
    {
        match self.inner.build_submission(dev) {
            Ok(_) => Ok(SubmitAnyBuilder::Empty),
            Err(e) => Err(e),
        }
    }
}

impl JoinFuture {
    /// Flushes both sides; each side remembers whether it was flushed, so
    /// order does not matter and repetition is harmless.
    pub fn flush(&mut self, dev: &mut Device) -> (r: Result<(), FutureError>)
        requires
            wf(GpuFuture::Join(*old(self)), *old(dev)),
            device_of(GpuFuture::Join(*old(self))) == old(dev).id,
        ensures
            wf(GpuFuture::Join(*final (self)), *final (dev)),
            old(dev).evolves_to(*final (dev)),
            stable_profile(GpuFuture::Join(*old(self)), GpuFuture::Join(*final (self))),
            r is Ok ==> is_flushed(GpuFuture::Join(*final (self))),
            is_flushed(GpuFuture::Join(*old(self))) ==> r is Ok && *final (self) == *old(self)
                && crate::device::device_unchanged(*old(dev), *final (dev)),
            flush_legal(GpuFuture::Join(*old(self))) && old(dev).all_clear() ==> r is Ok,
            r matches Err(e) ==> e is SubmitRefused || e is IllegalComposition,
            r == Err::<(), FutureError>(FutureError::IllegalComposition) ==> !flush_legal(
                GpuFuture::Join(*old(self)),
            ),
            r is Ok && !is_flushed(GpuFuture::Join(*old(self))) ==> final (dev).submissions@.len() > old(dev).submissions@.len(),
        decreases join_height(*self), 0nat,
    {
        match self.first.flush(dev) {
            Ok(()) => {},
            Err(e) => {
                proof {
                    lemma_wf_evolves(*self.second, *old(dev), *dev);
                }
                return Err(e);
            },
        }
        let ghost dev_mid = *dev;
        proof {
            lemma_wf_evolves(*self.second, *old(dev), *dev);
            if old(dev).all_clear() {
                crate::device::lemma_all_clear_evolves(*old(dev), *dev);
            }
        }
        match self.second.flush(dev) {
            Ok(()) => {
                proof {
                    lemma_wf_evolves(*self.first, dev_mid, *dev);
                    crate::device::lemma_evolves_trans(*old(dev), dev_mid, *dev);
                }
                Ok(())
            },
            Err(e) => {
                proof {
                    lemma_wf_evolves(*self.first, dev_mid, *dev);
                    crate::device::lemma_evolves_trans(*old(dev), dev_mid, *dev);
                }
                Err(e)
            },
        }
    }

    /// Builds both sides and merges the two accumulators per the merge
    /// table, submitting eagerly where the table says so.
    pub fn build_submission(&mut self, dev: &mut Device) -> (r: Result<
        SubmitAnyBuilder,
        FutureError,
    >)
        requires
            wf(GpuFuture::Join(*old(self)), *old(dev)),
            device_of(GpuFuture::Join(*old(self))) == old(dev).id,
        ensures
            wf(GpuFuture::Join(*final (self)), *final (dev)),
            old(dev).evolves_to(*final (dev)),
            stable_profile(GpuFuture::Join(*old(self)), GpuFuture::Join(*final (self))),
            r matches Ok(bb) ==> kind_of(bb) == builds_kind(GpuFuture::Join(*old(self))),
            r matches Ok(SubmitAnyBuilder::CommandBuffer(cb)) ==> cb.signal_fence is None,
            r is Ok ==> signal_ready(GpuFuture::Join(*final (self))),
            r matches Ok(SubmitAnyBuilder::SemaphoresWait(m2)) ==> m2.semaphores@
                == built_waits(GpuFuture::Join(*old(self))),
            r matches Ok(SubmitAnyBuilder::CommandBuffer(cb2)) ==> cb2.wait_semaphores@
                == built_waits(GpuFuture::Join(*old(self))) && cb2.command_buffers@ == built_cbs(GpuFuture::Join(*old(self)))
                && cb2.signal_semaphores@ == Seq::<u64>::empty(),
            r matches Ok(SubmitAnyBuilder::QueuePresent(pb2)) ==> pb2.wait_semaphores@
                == built_waits(GpuFuture::Join(*old(self))) && pb2.images@ == built_images(GpuFuture::Join(*old(self))),
            quiet(GpuFuture::Join(*old(self))) ==> final (dev).submissions@ == old(dev).submissions@,
            r is Ok ==> mark_ready(GpuFuture::Join(*final (self))),
            r == Err::<SubmitAnyBuilder, FutureError>(FutureError::IllegalComposition)
                ==> builds_kind(GpuFuture::Join(*old(self))) is Illegal,
            is_flushed(GpuFuture::Join(*old(self))) ==> r is Ok && *final (self) == *old(self)
                && final (dev).submissions@ == old(dev).submissions@,
            !(builds_kind(GpuFuture::Join(*old(self))) is Illegal) && old(dev).all_clear() ==> r
                is Ok,
            r matches Err(e) ==> e is SubmitRefused || e is IllegalComposition,
        decreases join_height(*self), 1nat,
    {
        let ghost first_pre = *self.first;
        let ghost second_pre = *self.second;
        let a = match self.first.build_submission(dev) {
            Ok(a) => a,
            Err(e) => {
                proof {
                    lemma_wf_evolves(*self.second, *old(dev), *dev);
                }
                return Err(e);
            },
        };
        let ghost dev_mid = *dev;
        proof {
            lemma_wf_evolves(*self.second, *old(dev), *dev);
            if old(dev).all_clear() {
                crate::device::lemma_all_clear_evolves(*old(dev), *dev);
            }
        }
        let b = match self.second.build_submission(dev) {
            Ok(b) => b,
            Err(e) => {
                proof {
                    lemma_wf_evolves(*self.first, dev_mid, *dev);
                    crate::device::lemma_evolves_trans(*old(dev), dev_mid, *dev);
                }
                return Err(e);
            },
        };
        let ghost dev_built = *dev;
        proof {
            lemma_wf_evolves(*self.first, dev_mid, *dev);
            crate::device::lemma_evolves_trans(*old(dev), dev_mid, *dev);
            if old(dev).all_clear() {
                crate::device::lemma_all_clear_evolves(*old(dev), *dev);
            }
            lemma_kind_queue(first_pre, *old(dev));
            lemma_kind_queue(second_pre, dev_mid);
        }
        let qa = (*self.first).queue();
        let qb = (*self.second).queue();
        proof {
            if is_flushed(GpuFuture::Join(*old(self))) {
                lemma_flushed_kind(first_pre);
                lemma_flushed_kind(second_pre);
            }
        }
        let a_waits = matches!(a, SubmitAnyBuilder::SemaphoresWait(_));
        let a_cmds = matches!(a, SubmitAnyBuilder::CommandBuffer(_));
        let a_pres = matches!(a, SubmitAnyBuilder::QueuePresent(_));
        let b_waits = matches!(b, SubmitAnyBuilder::SemaphoresWait(_));
        let b_cmds = matches!(b, SubmitAnyBuilder::CommandBuffer(_));
        let b_pres = matches!(b, SubmitAnyBuilder::QueuePresent(_));
        let len_before = dev.submissions.len();
        let merged = merge_submissions(a, qa, b, qb, dev);
        proof {
            lemma_wf_evolves(*self.first, dev_built, *dev);
            lemma_wf_evolves(*self.second, dev_built, *dev);
            crate::device::lemma_evolves_trans(*old(dev), dev_built, *dev);
        }
        match merged {
            Ok(res) => {
                if (a_cmds || a_pres) && b_waits {
                    self.first.mark_flushed(Ghost(*dev));
                } else if a_waits && (b_cmds || b_pres) {
                    self.second.mark_flushed(Ghost(*dev));
                } else if a_pres && b_pres {
                    self.first.mark_flushed(Ghost(*dev));
                    self.second.mark_flushed(Ghost(*dev));
                }
                proof {
                    assert(mark_ready(*self.first));
                    assert(mark_ready(*self.second));
                }
                Ok(res)
            },
            Err(e) => {
                if a_pres && b_pres && dev.submissions.len() > len_before {
                    self.first.mark_flushed(Ghost(*dev));
                }
                Err(e)
            },
        }
    }
}

impl SemaphoreSignalFuture {
    /// On first flush: builds the predecessor's accumulator, appends a
    /// signal of this node's semaphore, and submits it on the predecessor's
    /// queue.  Later flushes do nothing.
    pub fn flush(&mut self, dev: &mut Device) -> (r: Result<(), FutureError>)
        requires
            wf(GpuFuture::SemaphoreSignal(*old(self)), *old(dev)),
            device_of(GpuFuture::SemaphoreSignal(*old(self))) == old(dev).id,
        ensures
            wf(GpuFuture::SemaphoreSignal(*final (self)), *final (dev)),
            old(dev).evolves_to(*final (dev)),
            stable_profile(
                GpuFuture::SemaphoreSignal(*old(self)),
                GpuFuture::SemaphoreSignal(*final (self)),
            ),
            final (self).semaphore == old(self).semaphore,
            r is Ok ==> is_flushed(GpuFuture::SemaphoreSignal(*final (self))),
            is_flushed(GpuFuture::SemaphoreSignal(*old(self))) ==> r is Ok && *final (self)
                == *old(self) && crate::device::device_unchanged(*old(dev), *final (dev)),
            flush_legal(GpuFuture::SemaphoreSignal(*old(self))) && old(dev).all_clear() ==> r
                is Ok,
            r is Ok ==> !(builds_kind(GpuFuture::SemaphoreSignal(*old(self))) is Illegal),
            r matches Err(e) ==> e is SubmitRefused || e is IllegalComposition,
            r == Err::<(), FutureError>(FutureError::IllegalComposition) ==> builds_kind(
                GpuFuture::SemaphoreSignal(*old(self)),
            ) is Illegal,
            r is Ok && !old(self).flushed ==> final (dev).submissions@.len() > old(dev).submissions@.len() && (final (dev).submissions@.last()
                matches crate::device::Submission::Execute {
                queue: q,
                wait_semaphores: w,
                command_buffers: c,
                signal_semaphores: sg,
                fence: fe,
            } && Some(q) == queue_of(*old(self).previous) && w@ == built_waits(
                *old(self).previous,
            ) && c@ == built_cbs(*old(self).previous) && sg@ == seq![old(self).semaphore] && fe
                is None),
            r is Ok && !old(self).flushed && quiet(*old(self).previous) ==> final (dev).submissions@.len() == old(dev).submissions@.len() + 1,
        decreases height(*self.previous) + 1, 0nat,
    {
        proof {
            crate::device::lemma_evolves_refl(*dev);
        }
        if self.flushed {
            return Ok(());
        }
        let sub = match self.previous.build_submission(dev) {
            Ok(s) => s,
            Err(e) => {
                return Err(e);
            },
        };
        let ghost dev_built = *dev;
        proof {
            if old(dev).all_clear() {
                crate::device::lemma_all_clear_evolves(*old(dev), *dev);
            }
        }
        let queue = match (*self.previous).queue() {
            Some(q) => q,
            None => {
                return Err(FutureError::MissingQueue);
            },
        };
        proof {
            lemma_kind_queue(*self.previous, *dev);
        }
        let outcome: Result<(), FutureError> = match sub {
            SubmitAnyBuilder::Empty => {
                proof {
                    lemma_nothing_builds_empty(*old(self).previous);
                }
                let mut b = SubmitCommandBufferBuilder::new();
                b.add_signal_semaphore(self.semaphore);
                b.submit(queue, dev)
            },
            SubmitAnyBuilder::SemaphoresWait(w) => {
                proof {
                    lemma_waits_builds_no_batch(*old(self).previous);
                }
                let mut b = w.into_command_buffer_builder();
                b.add_signal_semaphore(self.semaphore);
                b.submit(queue, dev)
            },
            SubmitAnyBuilder::CommandBuffer(mut cb) => {
                cb.add_signal_semaphore(self.semaphore);
                cb.submit(queue, dev)
            },
            SubmitAnyBuilder::QueuePresent(_) => {
                return Err(FutureError::IllegalComposition);
            },
        };
        proof {
            lemma_wf_evolves(*self.previous, dev_built, *dev);
            crate::device::lemma_evolves_trans(*old(dev), dev_built, *dev);
        }
        match outcome {
            Ok(()) => {
                self.flushed = true;
                Ok(())
            },
            Err(e) => Err(e),
        }
    }

    /// Ensures the node is flushed, then hands successors a wait on this
    /// node's semaphore: they inherit the dependency without knowing the
    /// predecessor.
    pub fn build_submission(&mut self, dev: &mut Device) -> (r: Result<
        SubmitAnyBuilder,
        FutureError,
    >)
        requires
            wf(GpuFuture::SemaphoreSignal(*old(self)), *old(dev)),
            device_of(GpuFuture::SemaphoreSignal(*old(self))) == old(dev).id,
        ensures
            wf(GpuFuture::SemaphoreSignal(*final (self)), *final (dev)),
            old(dev).evolves_to(*final (dev)),
            stable_profile(
                GpuFuture::SemaphoreSignal(*old(self)),
                GpuFuture::SemaphoreSignal(*final (self)),
            ),
            r matches Ok(bb) ==> kind_of(bb) == builds_kind(
                GpuFuture::SemaphoreSignal(*old(self)),
            ),
            r matches Ok(SubmitAnyBuilder::SemaphoresWait(m)) ==> m.semaphores@ == seq![
                old(self).semaphore,
            ],
            r is Ok ==> signal_ready(GpuFuture::SemaphoreSignal(*final (self))),
            r is Ok ==> is_flushed(GpuFuture::SemaphoreSignal(*final (self))),
            r matches Ok(SubmitAnyBuilder::SemaphoresWait(m2)) ==> m2.semaphores@
                == built_waits(GpuFuture::SemaphoreSignal(*old(self))),
            r matches Ok(SubmitAnyBuilder::CommandBuffer(cb2)) ==> cb2.wait_semaphores@
                == built_waits(GpuFuture::SemaphoreSignal(*old(self))) && cb2.command_buffers@ == built_cbs(GpuFuture::SemaphoreSignal(*old(self)))
                && cb2.signal_semaphores@ == Seq::<u64>::empty(),
            r matches Ok(SubmitAnyBuilder::QueuePresent(pb2)) ==> pb2.wait_semaphores@
                == built_waits(GpuFuture::SemaphoreSignal(*old(self))) && pb2.images@ == built_images(GpuFuture::SemaphoreSignal(*old(self))),
            quiet(GpuFuture::SemaphoreSignal(*old(self))) ==> final (dev).submissions@ == old(dev).submissions@,
            r is Ok ==> mark_ready(GpuFuture::SemaphoreSignal(*final (self))),
            r == Err::<SubmitAnyBuilder, FutureError>(FutureError::IllegalComposition)
                ==> builds_kind(GpuFuture::SemaphoreSignal(*old(self))) is Illegal,
            is_flushed(GpuFuture::SemaphoreSignal(*old(self))) ==> r is Ok && *final (self)
                == *old(self) && final (dev).submissions@ == old(dev).submissions@,
            !(builds_kind(GpuFuture::SemaphoreSignal(*old(self))) is Illegal) && old(dev).all_clear() ==> r is Ok,
            r matches Err(e) ==> e is SubmitRefused || e is IllegalComposition,
        decreases height(*self.previous) + 1, 1nat,
    {
        match self.flush(dev) {
            Ok(()) => {},
            Err(e) => {
                return Err(e);
            },
        }
        let mut w = SemaphoresWaitBuilder::new();
        w.semaphores.push(self.semaphore);
        proof {
            assert(w.semaphores@ == seq![old(self).semaphore]);
        }
        Ok(SubmitAnyBuilder::SemaphoresWait(w))
    }
}

impl CommandBufferExecFuture {
    /// Merges this node's command buffer into the predecessor's accumulator:
    /// waits are kept in front, the command buffer is appended.  A present
    /// accumulator cannot absorb a command buffer.
    pub fn build_submission(&mut self, dev: &mut Device) -> (r: Result<
        SubmitAnyBuilder,
        FutureError,
    >)
        requires
            wf(GpuFuture::Execute(*old(self)), *old(dev)),
            device_of(GpuFuture::Execute(*old(self))) == old(dev).id,
        ensures
            wf(GpuFuture::Execute(*final (self)), *final (dev)),
            old(dev).evolves_to(*final (dev)),
            stable_profile(GpuFuture::Execute(*old(self)), GpuFuture::Execute(*final (self))),
            final (self).queue == old(self).queue,
            final (self).submitted == old(self).submitted,
            r matches Ok(bb) ==> kind_of(bb) == builds_kind(GpuFuture::Execute(*old(self))),
            r matches Ok(SubmitAnyBuilder::CommandBuffer(cb)) ==> cb.signal_fence is None
                && cb.command_buffers@.len() > 0 && cb.command_buffers@.last() == old(
                self,
            ).command_buffer.id,
            r is Ok ==> signal_ready(GpuFuture::Execute(*final (self))),
            r matches Ok(SubmitAnyBuilder::SemaphoresWait(m2)) ==> m2.semaphores@
                == built_waits(GpuFuture::Execute(*old(self))),
            r matches Ok(SubmitAnyBuilder::CommandBuffer(cb2)) ==> cb2.wait_semaphores@
                == built_waits(GpuFuture::Execute(*old(self))) && cb2.command_buffers@ == built_cbs(GpuFuture::Execute(*old(self)))
                && cb2.signal_semaphores@ == Seq::<u64>::empty(),
            r matches Ok(SubmitAnyBuilder::QueuePresent(pb2)) ==> pb2.wait_semaphores@
                == built_waits(GpuFuture::Execute(*old(self))) && pb2.images@ == built_images(GpuFuture::Execute(*old(self))),
            quiet(GpuFuture::Execute(*old(self))) ==> final (dev).submissions@ == old(dev).submissions@,
            r is Ok ==> mark_ready(GpuFuture::Execute(*final (self))),
            r == Err::<SubmitAnyBuilder, FutureError>(FutureError::IllegalComposition)
                ==> builds_kind(GpuFuture::Execute(*old(self))) is Illegal,
            is_flushed(GpuFuture::Execute(*old(self))) ==> r is Ok && *final (self) == *old(self)
                && final (dev).submissions@ == old(dev).submissions@,
            !(builds_kind(GpuFuture::Execute(*old(self))) is Illegal) && old(dev).all_clear()
                ==> r is Ok,
            r matches Err(e) ==> e is SubmitRefused || e is IllegalComposition,
        decreases height(*self.previous) + 1, 1nat,
    {
        proof {
            crate::device::lemma_evolves_refl(*dev);
        }
        if self.submitted {
            return Ok(SubmitAnyBuilder::Empty);
        }
        let sub = match self.previous.build_submission(dev) {
            Ok(s) => s,
            Err(e) => {
                return Err(e);
            },
        };
        match sub {
            SubmitAnyBuilder::Empty => {
                proof {
                    lemma_nothing_builds_empty(*old(self).previous);
                }
                let mut b = SubmitCommandBufferBuilder::new();
                b.add_command_buffer(self.command_buffer.id);
                Ok(SubmitAnyBuilder::CommandBuffer(b))
            },
            SubmitAnyBuilder::SemaphoresWait(w) => {
                proof {
                    lemma_waits_builds_no_batch(*old(self).previous);
                }
                let mut b = w.into_command_buffer_builder();
                b.add_command_buffer(self.command_buffer.id);
                Ok(SubmitAnyBuilder::CommandBuffer(b))
            },
            SubmitAnyBuilder::CommandBuffer(mut cb) => {
                cb.add_command_buffer(self.command_buffer.id);
                Ok(SubmitAnyBuilder::CommandBuffer(cb))
            },
            SubmitAnyBuilder::QueuePresent(_) => Err(FutureError::IllegalComposition),
        }
    }

    /// On first flush: builds the whole accumulator and submits it on this
    /// node's queue.  Later flushes do nothing.
    pub fn flush(&mut self, dev: &mut Device) -> (r: Result<(), FutureError>)
        requires
            wf(GpuFuture::Execute(*old(self)), *old(dev)),
            device_of(GpuFuture::Execute(*old(self))) == old(dev).id,
        ensures
            wf(GpuFuture::Execute(*final (self)), *final (dev)),
            old(dev).evolves_to(*final (dev)),
            stable_profile(GpuFuture::Execute(*old(self)), GpuFuture::Execute(*final (self))),
            r is Ok ==> is_flushed(GpuFuture::Execute(*final (self))),
            is_flushed(GpuFuture::Execute(*old(self))) ==> r is Ok && *final (self) == *old(self)
                && crate::device::device_unchanged(*old(dev), *final (dev)),
            flush_legal(GpuFuture::Execute(*old(self))) && old(dev).all_clear() ==> r is Ok,
            r matches Err(e) ==> e is SubmitRefused || e is IllegalComposition,
            r == Err::<(), FutureError>(FutureError::IllegalComposition) ==> !flush_legal(
                GpuFuture::Execute(*old(self)),
            ),
            r is Ok && !old(self).submitted ==> final (dev).submissions@.len() > old(dev).submissions@.len() && (final (dev).submissions@.last()
                matches crate::device::Submission::Execute {
                queue: q,
                wait_semaphores: w,
                command_buffers: c,
                signal_semaphores: sg,
                fence: fe,
            } && q == old(self).queue && w@ == built_waits(GpuFuture::Execute(*old(self))) && c@
                == built_cbs(GpuFuture::Execute(*old(self))) && sg@ == Seq::<u64>::empty() && fe
                is None),
            r is Ok && !old(self).submitted && quiet(*old(self).previous) ==> final (dev).submissions@.len() == old(dev).submissions@.len() + 1,
        decreases height(*self.previous) + 1, 2nat,
    {
        proof {
            crate::device::lemma_evolves_refl(*dev);
        }
        if self.submitted {
            return Ok(());
        }
        let sub = match self.build_submission(dev) {
            Ok(s) => s,
            Err(e) => {
                return Err(e);
            },
        };
        let ghost dev_built = *dev;
        proof {
            if old(dev).all_clear() {
                crate::device::lemma_all_clear_evolves(*old(dev), *dev);
            }
        }
        match sub {
            SubmitAnyBuilder::CommandBuffer(cb) => {
                let outcome = cb.submit(self.queue, dev);
                proof {
                    lemma_wf_evolves(*self.previous, dev_built, *dev);
                    crate::device::lemma_evolves_trans(*old(dev), dev_built, *dev);
                }
                match outcome {
                    Ok(()) => {
                        self.submitted = true;
                        Ok(())
                    },
                    Err(e) => Err(e),
                }
            },
            _ => {
                proof {
                    assert(false);
                }
                Err(FutureError::IllegalComposition)
            },
        }
    }
}

impl PresentFuture {
    /// Produces the present accumulator: the predecessor's waits are
    /// absorbed, this node's image is appended.  A command-buffer
    /// accumulator cannot be inherited; it must be flushed eagerly first.
    pub fn build_submission(&mut self, dev: &mut Device) -> (r: Result<
        SubmitAnyBuilder,
        FutureError,
    >)
        requires
            wf(GpuFuture::Present(*old(self)), *old(dev)),
            device_of(GpuFuture::Present(*old(self))) == old(dev).id,
        ensures
            wf(GpuFuture::Present(*final (self)), *final (dev)),
            old(dev).evolves_to(*final (dev)),
            stable_profile(GpuFuture::Present(*old(self)), GpuFuture::Present(*final (self))),
            final (self).queue == old(self).queue,
            final (self).flushed == old(self).flushed,
            r matches Ok(bb) ==> kind_of(bb) == builds_kind(GpuFuture::Present(*old(self))),
            r matches Ok(SubmitAnyBuilder::QueuePresent(pb)) ==> pb.images@.len() > 0
                && pb.images@.last() == (old(self).swapchain, old(self).image_index),
            r is Ok ==> signal_ready(GpuFuture::Present(*final (self))),
            r matches Ok(SubmitAnyBuilder::SemaphoresWait(m2)) ==> m2.semaphores@
                == built_waits(GpuFuture::Present(*old(self))),
            r matches Ok(SubmitAnyBuilder::CommandBuffer(cb2)) ==> cb2.wait_semaphores@
                == built_waits(GpuFuture::Present(*old(self))) && cb2.command_buffers@ == built_cbs(GpuFuture::Present(*old(self)))
                && cb2.signal_semaphores@ == Seq::<u64>::empty(),
            r matches Ok(SubmitAnyBuilder::QueuePresent(pb2)) ==> pb2.wait_semaphores@
                == built_waits(GpuFuture::Present(*old(self))) && pb2.images@ == built_images(GpuFuture::Present(*old(self))),
            quiet(GpuFuture::Present(*old(self))) ==> final (dev).submissions@ == old(dev).submissions@,
            r is Ok ==> mark_ready(GpuFuture::Present(*final (self))),
            r == Err::<SubmitAnyBuilder, FutureError>(FutureError::IllegalComposition)
                ==> builds_kind(GpuFuture::Present(*old(self))) is Illegal,
            is_flushed(GpuFuture::Present(*old(self))) ==> r is Ok && *final (self) == *old(self)
                && final (dev).submissions@ == old(dev).submissions@,
            !(builds_kind(GpuFuture::Present(*old(self))) is Illegal) && old(dev).all_clear()
                ==> r is Ok,
            r matches Err(e) ==> e is SubmitRefused || e is IllegalComposition,
        decreases height(*self.previous) + 1, 1nat,
    {
        proof {
            crate::device::lemma_evolves_refl(*dev);
        }
        if self.flushed {
            return Ok(SubmitAnyBuilder::Empty);
        }
        let sub = match self.previous.build_submission(dev) {
            Ok(s) => s,
            Err(e) => {
                return Err(e);
            },
        };
        match sub {
            SubmitAnyBuilder::Empty => {
                proof {
                    lemma_nothing_builds_empty(*old(self).previous);
                }
                let mut b = SubmitPresentBuilder::new();
                b.add_swapchain(self.swapchain, self.image_index);
                Ok(SubmitAnyBuilder::QueuePresent(b))
            },
            SubmitAnyBuilder::SemaphoresWait(w) => {
                proof {
                    lemma_waits_builds_no_batch(*old(self).previous);
                }
                let mut b = SubmitPresentBuilder::new();
                b.add_wait_semaphores(w.semaphores);
                b.add_swapchain(self.swapchain, self.image_index);
                Ok(SubmitAnyBuilder::QueuePresent(b))
            },
            SubmitAnyBuilder::CommandBuffer(_) => Err(FutureError::IllegalComposition),
            SubmitAnyBuilder::QueuePresent(mut pb) => {
                pb.add_swapchain(self.swapchain, self.image_index);
                Ok(SubmitAnyBuilder::QueuePresent(pb))
            },
        }
    }

    /// On first flush: builds the present accumulator and submits it on
    /// this node's queue.  Later flushes do nothing.
    pub fn flush(&mut self, dev: &mut Device) -> (r: Result<(), FutureError>)
        requires
            wf(GpuFuture::Present(*old(self)), *old(dev)),
            device_of(GpuFuture::Present(*old(self))) == old(dev).id,
        ensures
            wf(GpuFuture::Present(*final (self)), *final (dev)),
            old(dev).evolves_to(*final (dev)),
            stable_profile(GpuFuture::Present(*old(self)), GpuFuture::Present(*final (self))),
            r is Ok ==> is_flushed(GpuFuture::Present(*final (self))),
            is_flushed(GpuFuture::Present(*old(self))) ==> r is Ok && *final (self) == *old(self)
                && crate::device::device_unchanged(*old(dev), *final (dev)),
            flush_legal(GpuFuture::Present(*old(self))) && old(dev).all_clear() ==> r is Ok,
            r matches Err(e) ==> e is SubmitRefused || e is IllegalComposition,
            r == Err::<(), FutureError>(FutureError::IllegalComposition) ==> !flush_legal(
                GpuFuture::Present(*old(self)),
            ),
            r is Ok && !old(self).flushed ==> final (dev).submissions@.len() > old(dev).submissions@.len() && (final (dev).submissions@.last()
                matches crate::device::Submission::Present { queue: q, wait_semaphores: w, images: im }
                && q == old(self).queue && w@ == built_waits(GpuFuture::Present(*old(self)))
                && im@ == built_images(GpuFuture::Present(*old(self)))),
            r is Ok && !old(self).flushed && quiet(*old(self).previous) ==> final (dev).submissions@.len() == old(dev).submissions@.len() + 1,
        decreases height(*self.previous) + 1, 2nat,
    {
        proof {
            crate::device::lemma_evolves_refl(*dev);
        }
        if self.flushed {
            return Ok(());
        }
        let sub = match self.build_submission(dev) {
            Ok(s) => s,
            Err(e) => {
                return Err(e);
            },
        };
        let ghost dev_built = *dev;
        proof {
            if old(dev).all_clear() {
                crate::device::lemma_all_clear_evolves(*old(dev), *dev);
            }
        }
        match sub {
            SubmitAnyBuilder::QueuePresent(pb) => {
                let outcome = pb.submit(self.queue, dev);
                proof {
                    lemma_wf_evolves(*self.previous, dev_built, *dev);
                    crate::device::lemma_evolves_trans(*old(dev), dev_built, *dev);
                }
                match outcome {
                    Ok(()) => {
                        self.flushed = true;
                        Ok(())
                    },
                    Err(e) => Err(e),
                }
            },
            _ => {
                proof {
                    assert(false);
                }
                Err(FutureError::IllegalComposition)
            },
        }
    }
}

impl GpuFuture {
    /// Submits to the device the actions that permit this future to occur.
    /// Every node remembers whether it was flushed: only the first call
    /// submits anything.
    pub fn flush(&mut self, dev: &mut Device) -> (r: Result<(), FutureError>)
        requires
            wf(*old(self), *old(dev)),
            device_of(*old(self)) == old(dev).id,
        ensures
            wf(*final (self), *final (dev)),
            old(dev).evolves_to(*final (dev)),
            stable_profile(*old(self), *final (self)),
            r is Ok ==> is_flushed(*final (self)),
            is_flushed(*old(self)) ==> r is Ok && *final (self) == *old(self)
                && crate::device::device_unchanged(*old(dev), *final (dev)),
            flush_legal(*old(self)) && old(dev).all_clear() ==> r is Ok,
            r matches Err(e) ==> e is SubmitRefused || e is IllegalComposition,
            r == Err::<(), FutureError>(FutureError::IllegalComposition) ==> !flush_legal(
                *old(self),
            ),
            r is Ok && !is_flushed(*old(self)) ==> final (dev).submissions@.len() > old(dev).submissions@.len(),
            *old(self) matches GpuFuture::Execute(e) ==> (r is Ok && !e.submitted ==> (final (
            dev).submissions@.last() matches crate::device::Submission::Execute {
                queue: q,
                wait_semaphores: w,
                command_buffers: c,
                signal_semaphores: sg,
                fence: fe,
            } && q == e.queue && w@ == built_waits(*old(self)) && c@ == built_cbs(*old(self))
                && sg@ == Seq::<u64>::empty() && fe is None)),
            *old(self) matches GpuFuture::Present(p) ==> (r is Ok && !p.flushed ==> (final (
            dev).submissions@.last() matches crate::device::Submission::Present {
                queue: q,
                wait_semaphores: w,
                images: im,
            } && q == p.queue && w@ == built_waits(*old(self)) && im@ == built_images(
                *old(self),
            ))),
            *old(self) matches GpuFuture::SemaphoreSignal(sm) ==> (r is Ok && !sm.flushed ==> (
            final (dev).submissions@.last() matches crate::device::Submission::Execute {
                queue: q,
                wait_semaphores: w,
                command_buffers: c,
                signal_semaphores: sg,
                fence: fe,
            } && Some(q) == queue_of(*sm.previous) && w@ == built_waits(*sm.previous) && c@
                == built_cbs(*sm.previous) && sg@ == seq![sm.semaphore] && fe is None)),
        decreases height(*self), 3nat,
    {
        proof {
            crate::device::lemma_evolves_refl(*dev);
        }
        match self {
            GpuFuture::Dummy { .. } => Ok(()),
            GpuFuture::Join(j) => j.flush(dev),
            GpuFuture::SemaphoreSignal(s) => s.flush(dev),
            GpuFuture::FenceSignal(fs) => fs.flush(dev),
            GpuFuture::Execute(e) => e.flush(dev),
            GpuFuture::Present(p) => p.flush(dev),
            GpuFuture::SharedFenceSignal(sh) => {
                let r = sh.flush(dev);
                proof {
                    crate::device::lemma_unchanged_evolves(*old(dev), *dev);
                    lemma_fence_wf_evolves(sh.inner, *old(dev), *dev);
                }
                r
            },
        }
    }

    /// Builds the accumulator that must be submitted for this node's event
    /// to happen.  The caller must submit the result at most once; a node
    /// that already handed its work over yields the empty accumulator.
    pub fn build_submission(&mut self, dev: &mut Device) -> (r: Result<
        SubmitAnyBuilder,
        FutureError,
    >)
        requires
            wf(*old(self), *old(dev)),
            device_of(*old(self)) == old(dev).id,
        ensures
            wf(*final (self), *final (dev)),
            old(dev).evolves_to(*final (dev)),
            stable_profile(*old(self), *final (self)),
            r matches Ok(bb) ==> kind_of(bb) == builds_kind(*old(self)),
            r matches Ok(SubmitAnyBuilder::CommandBuffer(cb)) ==> cb.signal_fence is None,
            r is Ok ==> signal_ready(*final (self)),
            r matches Ok(SubmitAnyBuilder::SemaphoresWait(m2)) ==> m2.semaphores@
                == built_waits(*old(self)),
            r matches Ok(SubmitAnyBuilder::CommandBuffer(cb2)) ==> cb2.wait_semaphores@
                == built_waits(*old(self)) && cb2.command_buffers@ == built_cbs(*old(self))
                && cb2.signal_semaphores@ == Seq::<u64>::empty(),
            r matches Ok(SubmitAnyBuilder::QueuePresent(pb2)) ==> pb2.wait_semaphores@
                == built_waits(*old(self)) && pb2.images@ == built_images(*old(self)),
            quiet(*old(self)) ==> final (dev).submissions@ == old(dev).submissions@,
            r is Ok ==> mark_ready(*final (self)),
            r == Err::<SubmitAnyBuilder, FutureError>(FutureError::IllegalComposition)
                ==> builds_kind(*old(self)) is Illegal,
            is_flushed(*old(self)) ==> r is Ok && *final (self) == *old(self) && final (dev).submissions@ == old(dev).submissions@,
            !(builds_kind(*old(self)) is Illegal) && old(dev).all_clear() ==> r is Ok,
            r matches Err(e) ==> e is SubmitRefused || e is IllegalComposition,
        decreases height(*self), 3nat,
    {
        proof {
            crate::device::lemma_evolves_refl(*dev);
        }
        match self {
            GpuFuture::Dummy { .. } => Ok(SubmitAnyBuilder::Empty),
            GpuFuture::Join(j) => j.build_submission(dev),
            GpuFuture::SemaphoreSignal(s) => s.build_submission(dev),
            GpuFuture::FenceSignal(fs) => fs.build_submission(dev),
            GpuFuture::Execute(e) => e.build_submission(dev),
            GpuFuture::Present(p) => p.build_submission(dev),
            GpuFuture::SharedFenceSignal(sh) => sh.build_submission(dev),
        }
    }
}

// ------------------------------------------------------------------
// The questions every node answers, executably.
// ------------------------------------------------------------------

impl GpuFuture {
    /// The owning device handle.
    pub fn device(&self) -> (d: u64)
        ensures
            d == device_of(*self),
        decreases height(*self), 3nat,
    {
        match self {
            GpuFuture::Dummy { device, .. } => *device,
            GpuFuture::Join(j) => (*j.first).device(),
            GpuFuture::SemaphoreSignal(s) => (*s.previous).device(),
            GpuFuture::FenceSignal(fs) => fs.device,
            GpuFuture::Execute(e) => (*e.previous).device(),
            GpuFuture::Present(p) => (*p.previous).device(),
            GpuFuture::SharedFenceSignal(sh) => sh.inner.device,
        }
    }

    /// Whether work submitted after this node may target another queue.
    pub fn queue_change_allowed(&self) -> (r: bool)
        ensures
            r == queue_change_allowed_of(*self),
        decreases height(*self), 3nat,
    {
        match self {
            GpuFuture::Dummy { .. } => true,
            GpuFuture::Join(j) => (*j.first).queue_change_allowed() && (
            *j.second).queue_change_allowed(),
            GpuFuture::SemaphoreSignal(_) => true,
            GpuFuture::FenceSignal(_) => true,
            GpuFuture::Execute(_) => false,
            GpuFuture::Present(_) => true,
            GpuFuture::SharedFenceSignal(_) => true,
        }
    }

    /// The queue that triggers this node's event, when known.
    pub fn queue(&self) -> (r: Option<QueueRef>)
        ensures
            r == queue_of(*self),
        decreases height(*self), 3nat,
    {
        match self {
            GpuFuture::Dummy { queue, .. } => *queue,
            GpuFuture::Join(j) => match ((*j.first).queue(), (*j.second).queue()) {
                (Some(q1), Some(q2)) => if q1.is_same(&q2) {
                    Some(q1)
                } else if (*j.first).queue_change_allowed() {
                    Some(q2)
                } else if (*j.second).queue_change_allowed() {
                    Some(q1)
                } else {
                    None
                },
                (Some(q), None) => Some(q),
                (None, Some(q)) => Some(q),
                (None, None) => None,
            },
            GpuFuture::SemaphoreSignal(s) => (*s.previous).queue(),
            GpuFuture::FenceSignal(_) => None,
            GpuFuture::Execute(e) => Some(e.queue),
            GpuFuture::Present(p) => Some(p.queue),
            GpuFuture::SharedFenceSignal(_) => None,
        }
    }

    /// The whole answer of the chain to a buffer-access request, without the
    /// double-exclusive guard; the recursion and the conflict test both need
    /// it.
    fn check_buffer_impl(&self, buffer: u64, exclusive: bool, queue: QueueRef) -> (r: Result<
        Option<(PipelineStages, AccessFlagBits)>,
        (),
    >)
        ensures
            r == check_buffer_spec(*self, buffer, exclusive, queue),
        decreases height(*self), 3nat,
    {
        match self {
            GpuFuture::Dummy { .. } => Err(()),
            GpuFuture::Join(j) => {
                let a = (*j.first).check_buffer_impl(buffer, exclusive, queue);
                let b = (*j.second).check_buffer_impl(buffer, exclusive, queue);
                match (a, b) {
                    (Ok(v), Err(_)) => Ok(v),
                    (Err(_), Ok(v)) => Ok(v),
                    (Err(_), Err(_)) => Err(()),
                    (Ok(None), Ok(None)) => Ok(None),
                    (Ok(Some(v)), Ok(None)) => Ok(Some(v)),
                    (Ok(None), Ok(Some(v))) => Ok(Some(v)),
                    (Ok(Some((s1, a1))), Ok(Some((s2, a2)))) => Ok(Some((s1.or(s2), a1.or(a2)))),
                }
            },
            GpuFuture::SemaphoreSignal(s) => (*s.previous).check_buffer_impl(
                buffer,
                exclusive,
                queue,
            ),
            GpuFuture::FenceSignal(fs) => match &fs.state {
                FenceSignalState::Pending(p, _) => (**p).check_buffer_impl(buffer, exclusive, queue),
                FenceSignalState::PartiallyFlushed(p, _) => (**p).check_buffer_impl(
                    buffer,
                    exclusive,
                    queue,
                ),
                FenceSignalState::Flushed(p, _) => (**p).check_buffer_impl(buffer, exclusive, queue),
                FenceSignalState::Cleaned => Err(()),
                FenceSignalState::Poisoned => Err(()),
            },
            GpuFuture::Execute(e) => match find_resource_use(&e.command_buffer.buffer_uses, buffer) {
                Some(u) => if queue.is_same(&e.queue) && (u.exclusive || !exclusive) {
                    Ok(Some((u.stages, u.access)))
                } else {
                    Err(())
                },
                None => (*e.previous).check_buffer_impl(buffer, exclusive, queue),
            },
            GpuFuture::Present(p) => (*p.previous).check_buffer_impl(buffer, exclusive, queue),
            GpuFuture::SharedFenceSignal(sh) => match &sh.inner.state {
                FenceSignalState::Pending(p, _) => (**p).check_buffer_impl(buffer, exclusive, queue),
                FenceSignalState::PartiallyFlushed(p, _) => (**p).check_buffer_impl(
                    buffer,
                    exclusive,
                    queue,
                ),
                FenceSignalState::Flushed(p, _) => (**p).check_buffer_impl(buffer, exclusive, queue),
                FenceSignalState::Cleaned => Err(()),
                FenceSignalState::Poisoned => Err(()),
            },
        }
    }

    /// As `check_buffer_impl`, for an image.
    fn check_image_impl(&self, image: u64, exclusive: bool, queue: QueueRef) -> (r: Result<
        Option<(PipelineStages, AccessFlagBits)>,
        (),
    >)
        ensures
            r == check_image_spec(*self, image, exclusive, queue),
        decreases height(*self), 3nat,
    {
        match self {
            GpuFuture::Dummy { .. } => Err(()),
            GpuFuture::Join(j) => {
                let a = (*j.first).check_image_impl(image, exclusive, queue);
                let b = (*j.second).check_image_impl(image, exclusive, queue);
                match (a, b) {
                    (Ok(v), Err(_)) => Ok(v),
                    (Err(_), Ok(v)) => Ok(v),
                    (Err(_), Err(_)) => Err(()),
                    (Ok(None), Ok(None)) => Ok(None),
                    (Ok(Some(v)), Ok(None)) => Ok(Some(v)),
                    (Ok(None), Ok(Some(v))) => Ok(Some(v)),
                    (Ok(Some((s1, a1))), Ok(Some((s2, a2)))) => Ok(Some((s1.or(s2), a1.or(a2)))),
                }
            },
            GpuFuture::SemaphoreSignal(s) => (*s.previous).check_image_impl(image, exclusive, queue),
            GpuFuture::FenceSignal(fs) => match &fs.state {
                FenceSignalState::Pending(p, _) => (**p).check_image_impl(image, exclusive, queue),
                FenceSignalState::PartiallyFlushed(p, _) => (**p).check_image_impl(
                    image,
                    exclusive,
                    queue,
                ),
                FenceSignalState::Flushed(p, _) => (**p).check_image_impl(image, exclusive, queue),
                FenceSignalState::Cleaned => Err(()),
                FenceSignalState::Poisoned => Err(()),
            },
            GpuFuture::Execute(e) => match find_resource_use(&e.command_buffer.image_uses, image) {
                Some(u) => if queue.is_same(&e.queue) && (u.exclusive || !exclusive) {
                    Ok(Some((u.stages, u.access)))
                } else {
                    Err(())
                },
                None => (*e.previous).check_image_impl(image, exclusive, queue),
            },
            GpuFuture::Present(p) => (*p.previous).check_image_impl(image, exclusive, queue),
            GpuFuture::SharedFenceSignal(sh) => match &sh.inner.state {
                FenceSignalState::Pending(p, _) => (**p).check_image_impl(image, exclusive, queue),
                FenceSignalState::PartiallyFlushed(p, _) => (**p).check_image_impl(
                    image,
                    exclusive,
                    queue,
                ),
                FenceSignalState::Flushed(p, _) => (**p).check_image_impl(image, exclusive, queue),
                FenceSignalState::Cleaned => Err(()),
                FenceSignalState::Poisoned => Err(()),
            },
        }
    }

    /// Whether submitting after this node grants the requested access to the
    /// buffer, and the latest usage to barrier against (`None` for a
    /// don't-care).  An unknown answer is always safe; a positive answer is a
    /// claim that must be correct, so a request for exclusive access must not
    /// meet a double-exclusive claim.
    pub fn check_buffer_access(&self, buffer: u64, exclusive: bool, queue: QueueRef) -> (r: Result<
        Option<(PipelineStages, AccessFlagBits)>,
        (),
    >)
        requires
            exclusive ==> !buffer_conflict(*self, buffer, queue),
        ensures
            r == check_buffer_spec(*self, buffer, exclusive, queue),
    {
        self.check_buffer_impl(buffer, exclusive, queue)
    }

    /// As `check_buffer_access`, for an image.  An image layout transition
    /// needs exclusive access.
    pub fn check_image_access(&self, image: u64, exclusive: bool, queue: QueueRef) -> (r: Result<
        Option<(PipelineStages, AccessFlagBits)>,
        (),
    >)
        requires
            exclusive ==> !image_conflict(*self, image, queue),
        ensures
            r == check_image_spec(*self, image, exclusive, queue),
    {
        self.check_image_impl(image, exclusive, queue)
    }

    /// Whether some join inside this node has both sides granting exclusive
    /// access to the buffer.  Callers test this before asking for exclusive
    /// access.
    pub fn has_buffer_conflict(&self, buffer: u64, queue: QueueRef) -> (r: bool)
        ensures
            r == buffer_conflict(*self, buffer, queue),
        decreases height(*self), 3nat,
    {
        match self {
            GpuFuture::Dummy { .. } => false,
            GpuFuture::Join(j) => ((*j.first).check_buffer_impl(buffer, true, queue).is_ok() && (
            *j.second).check_buffer_impl(buffer, true, queue).is_ok()) || (
            *j.first).has_buffer_conflict(buffer, queue) || (*j.second).has_buffer_conflict(
                buffer,
                queue,
            ),
            GpuFuture::SemaphoreSignal(s) => (*s.previous).has_buffer_conflict(buffer, queue),
            GpuFuture::FenceSignal(fs) => match &fs.state {
                FenceSignalState::Pending(p, _) => (**p).has_buffer_conflict(buffer, queue),
                FenceSignalState::PartiallyFlushed(p, _) => (**p).has_buffer_conflict(buffer, queue),
                FenceSignalState::Flushed(p, _) => (**p).has_buffer_conflict(buffer, queue),
                FenceSignalState::Cleaned => false,
                FenceSignalState::Poisoned => false,
            },
            GpuFuture::Execute(e) => (*e.previous).has_buffer_conflict(buffer, queue),
            GpuFuture::Present(p) => (*p.previous).has_buffer_conflict(buffer, queue),
            GpuFuture::SharedFenceSignal(sh) => match &sh.inner.state {
                FenceSignalState::Pending(p, _) => (**p).has_buffer_conflict(buffer, queue),
                FenceSignalState::PartiallyFlushed(p, _) => (**p).has_buffer_conflict(buffer, queue),
                FenceSignalState::Flushed(p, _) => (**p).has_buffer_conflict(buffer, queue),
                FenceSignalState::Cleaned => false,
                FenceSignalState::Poisoned => false,
            },
        }
    }

    /// As `has_buffer_conflict`, for an image.
    pub fn has_image_conflict(&self, image: u64, queue: QueueRef) -> (r: bool)
        ensures
            r == image_conflict(*self, image, queue),
        decreases height(*self), 3nat,
    {
        match self {
            GpuFuture::Dummy { .. } => false,
            GpuFuture::Join(j) => ((*j.first).check_image_impl(image, true, queue).is_ok() && (
            *j.second).check_image_impl(image, true, queue).is_ok()) || (
            *j.first).has_image_conflict(image, queue) || (*j.second).has_image_conflict(
                image,
                queue,
            ),
            GpuFuture::SemaphoreSignal(s) => (*s.previous).has_image_conflict(image, queue),
            GpuFuture::FenceSignal(fs) => match &fs.state {
                FenceSignalState::Pending(p, _) => (**p).has_image_conflict(image, queue),
                FenceSignalState::PartiallyFlushed(p, _) => (**p).has_image_conflict(image, queue),
                FenceSignalState::Flushed(p, _) => (**p).has_image_conflict(image, queue),
                FenceSignalState::Cleaned => false,
                FenceSignalState::Poisoned => false,
            },
            GpuFuture::Execute(e) => (*e.previous).has_image_conflict(image, queue),
            GpuFuture::Present(p) => (*p.previous).has_image_conflict(image, queue),
            GpuFuture::SharedFenceSignal(sh) => match &sh.inner.state {
                FenceSignalState::Pending(p, _) => (**p).has_image_conflict(image, queue),
                FenceSignalState::PartiallyFlushed(p, _) => (**p).has_image_conflict(image, queue),
                FenceSignalState::Flushed(p, _) => (**p).has_image_conflict(image, queue),
                FenceSignalState::Cleaned => false,
                FenceSignalState::Poisoned => false,
            },
        }
    }
}

// ------------------------------------------------------------------
// The merge table.
// ------------------------------------------------------------------

/// Which accumulator variant a built accumulator is.
pub open spec fn kind_of(s: SubmitAnyBuilder) -> SubmitKind {
    match s {
        SubmitAnyBuilder::Empty => SubmitKind::Nothing,
        SubmitAnyBuilder::SemaphoresWait(_) => SubmitKind::Waits,
        SubmitAnyBuilder::CommandBuffer(_) => SubmitKind::Commands,
        SubmitAnyBuilder::QueuePresent(_) => SubmitKind::Presents,
    }
}

/// Merges two sibling accumulators per the merge table.  An empty side is
/// absorbed; two wait sets are united; a wait set beside a batch submits the
/// batch eagerly on its own chain's queue and keeps the waits; two
/// command-buffer batches are appended into one; two presents are both
/// submitted eagerly; a command-buffer batch beside a present is not legal
/// composition.
pub fn merge_submissions(
    a: SubmitAnyBuilder,
    first_queue: Option<QueueRef>,
    b: SubmitAnyBuilder,
    second_queue: Option<QueueRef>,
    dev: &mut Device,
) -> (r: Result<SubmitAnyBuilder, FutureError>)
    requires
        a matches SubmitAnyBuilder::CommandBuffer(x) ==> x.signal_fence is None,
        b matches SubmitAnyBuilder::CommandBuffer(x) ==> x.signal_fence is None,
        (a is CommandBuffer && b is SemaphoresWait) || (a is QueuePresent && (b is SemaphoresWait
            || b is QueuePresent)) ==> (first_queue matches Some(q) && q.device == old(dev).id),
        (b is CommandBuffer && a is SemaphoresWait) || (b is QueuePresent && (a is SemaphoresWait
            || a is QueuePresent)) ==> (second_queue matches Some(q) && q.device == old(dev).id),
    ensures
        old(dev).evolves_to(*final (dev)),
        final (dev).fences@ == old(dev).fences@,
        final (dev).semaphore_count == old(dev).semaphore_count,
        a is Empty ==> r == Ok::<SubmitAnyBuilder, FutureError>(b)
            && crate::device::device_unchanged(*old(dev), *final (dev)),
        b is Empty ==> r == Ok::<SubmitAnyBuilder, FutureError>(a)
            && crate::device::device_unchanged(*old(dev), *final (dev)),
        r matches Ok(m) ==> kind_of(m) == merge_kind(kind_of(a), kind_of(b)),
        r matches Ok(SubmitAnyBuilder::CommandBuffer(x)) ==> x.signal_fence is None,
        (a is CommandBuffer && b is QueuePresent) || (a is QueuePresent && b is CommandBuffer)
            ==> r == Err::<SubmitAnyBuilder, FutureError>(FutureError::IllegalComposition)
            && crate::device::device_unchanged(*old(dev), *final (dev)),
        r matches Err(e) ==> e is SubmitRefused || e is IllegalComposition,
        old(dev).all_clear() && !((a is CommandBuffer && b is QueuePresent) || (a is QueuePresent
            && b is CommandBuffer)) ==> r is Ok,
        a matches SubmitAnyBuilder::SemaphoresWait(x) ==> (b
            matches SubmitAnyBuilder::SemaphoresWait(y) ==> crate::device::device_unchanged(
            *old(dev),
            *final (dev),
        ) && (r matches Ok(SubmitAnyBuilder::SemaphoresWait(m)) && m.semaphores@ == x.semaphores@
            + y.semaphores@)),
        a matches SubmitAnyBuilder::CommandBuffer(x) ==> (b
            matches SubmitAnyBuilder::CommandBuffer(y) ==> crate::device::device_unchanged(
            *old(dev),
            *final (dev),
        ) && (r matches Ok(SubmitAnyBuilder::CommandBuffer(m)) && m.wait_semaphores@
            == x.wait_semaphores@ + y.wait_semaphores@ && m.command_buffers@ == x.command_buffers@
            + y.command_buffers@ && m.signal_semaphores@ == x.signal_semaphores@
            + y.signal_semaphores@ && m.signal_fence is None)),
        a matches SubmitAnyBuilder::SemaphoresWait(x) ==> (b
            matches SubmitAnyBuilder::CommandBuffer(y) ==> (second_queue matches Some(q2) ==> (r
            is Ok ==> (r matches Ok(SubmitAnyBuilder::SemaphoresWait(m)) && m.semaphores@
            == x.semaphores@ && final (dev).submissions@ == old(dev).submissions@.push(
            crate::device::Submission::Execute {
                queue: q2,
                wait_semaphores: y.wait_semaphores,
                command_buffers: y.command_buffers,
                signal_semaphores: y.signal_semaphores,
                fence: None,
            },
        ))))),
        a matches SubmitAnyBuilder::CommandBuffer(x) ==> (b
            matches SubmitAnyBuilder::SemaphoresWait(y) ==> (first_queue matches Some(q1) ==> (r
            is Ok ==> (r matches Ok(SubmitAnyBuilder::SemaphoresWait(m)) && m.semaphores@
            == y.semaphores@ && final (dev).submissions@ == old(dev).submissions@.push(
            crate::device::Submission::Execute {
                queue: q1,
                wait_semaphores: x.wait_semaphores,
                command_buffers: x.command_buffers,
                signal_semaphores: x.signal_semaphores,
                fence: None,
            },
        ))))),
        a matches SubmitAnyBuilder::SemaphoresWait(x) ==> (b
            matches SubmitAnyBuilder::QueuePresent(y) ==> (second_queue matches Some(q2) ==> (r
            is Ok ==> (r matches Ok(SubmitAnyBuilder::SemaphoresWait(m)) && m.semaphores@
            == x.semaphores@ && final (dev).submissions@ == old(dev).submissions@.push(
            crate::device::Submission::Present {
                queue: q2,
                wait_semaphores: y.wait_semaphores,
                images: y.images,
            },
        ))))),
        a matches SubmitAnyBuilder::QueuePresent(x) ==> (b
            matches SubmitAnyBuilder::SemaphoresWait(y) ==> (first_queue matches Some(q1) ==> (r
            is Ok ==> (r matches Ok(SubmitAnyBuilder::SemaphoresWait(m)) && m.semaphores@
            == y.semaphores@ && final (dev).submissions@ == old(dev).submissions@.push(
            crate::device::Submission::Present {
                queue: q1,
                wait_semaphores: x.wait_semaphores,
                images: x.images,
            },
        ))))),
        a matches SubmitAnyBuilder::QueuePresent(x) ==> (b
            matches SubmitAnyBuilder::QueuePresent(y) ==> (first_queue matches Some(q1) ==> (
        second_queue matches Some(q2) ==> (r is Ok ==> r == Ok::<SubmitAnyBuilder, FutureError>(
            SubmitAnyBuilder::Empty,
        ) && final (dev).submissions@ == old(dev).submissions@.push(
            crate::device::Submission::Present {
                queue: q1,
                wait_semaphores: x.wait_semaphores,
                images: x.images,
            },
        ).push(
            crate::device::Submission::Present {
                queue: q2,
                wait_semaphores: y.wait_semaphores,
                images: y.images,
            },
        ))))),
        r is Err ==> final (dev).submissions@.len() <= old(dev).submissions@.len() + 1,
        a is QueuePresent && b is QueuePresent && r is Err && old(dev).next_refused() ==> final (dev).submissions@ == old(dev).submissions@,
        a matches SubmitAnyBuilder::QueuePresent(x) ==> (b matches SubmitAnyBuilder::QueuePresent(
            y,
        ) ==> (first_queue matches Some(q1) ==> (r is Err && !old(dev).next_refused() ==> final (dev).submissions@ == old(dev).submissions@.push(
            crate::device::Submission::Present {
                queue: q1,
                wait_semaphores: x.wait_semaphores,
                images: x.images,
            },
        )))),
        r == Err::<SubmitAnyBuilder, FutureError>(FutureError::IllegalComposition) ==> ((a
            is CommandBuffer && b is QueuePresent) || (a is QueuePresent && b is CommandBuffer)),
        !eager_cell(kind_of(a), kind_of(b)) ==> final (dev).submissions@ == old(dev).submissions@,
{
    proof {
        crate::device::lemma_evolves_refl(*dev);
    }
    match (a, b) {
        (SubmitAnyBuilder::Empty, rest) => Ok(rest),
        (rest, SubmitAnyBuilder::Empty) => Ok(rest),
        (SubmitAnyBuilder::SemaphoresWait(mut x), SubmitAnyBuilder::SemaphoresWait(y)) => {
            x.merge(y);
            Ok(SubmitAnyBuilder::SemaphoresWait(x))
        },
        (SubmitAnyBuilder::SemaphoresWait(x), SubmitAnyBuilder::CommandBuffer(y)) => {
            let q = match second_queue {
                Some(q) => q,
                None => {
                    return Err(FutureError::MissingQueue);
                },
            };
            match y.submit(q, dev) {
                Ok(()) => Ok(SubmitAnyBuilder::SemaphoresWait(x)),
                Err(e) => Err(e),
            }
        },
        (SubmitAnyBuilder::CommandBuffer(x), SubmitAnyBuilder::SemaphoresWait(y)) => {
            let q = match first_queue {
                Some(q) => q,
                None => {
                    return Err(FutureError::MissingQueue);
                },
            };
            match x.submit(q, dev) {
                Ok(()) => Ok(SubmitAnyBuilder::SemaphoresWait(y)),
                Err(e) => Err(e),
            }
        },
        (SubmitAnyBuilder::SemaphoresWait(x), SubmitAnyBuilder::QueuePresent(y)) => {
            let q = match second_queue {
                Some(q) => q,
                None => {
                    return Err(FutureError::MissingQueue);
                },
            };
            match y.submit(q, dev) {
                Ok(()) => Ok(SubmitAnyBuilder::SemaphoresWait(x)),
                Err(e) => Err(e),
            }
        },
        (SubmitAnyBuilder::QueuePresent(x), SubmitAnyBuilder::SemaphoresWait(y)) => {
            let q = match first_queue {
                Some(q) => q,
                None => {
                    return Err(FutureError::MissingQueue);
                },
            };
            match x.submit(q, dev) {
                Ok(()) => Ok(SubmitAnyBuilder::SemaphoresWait(y)),
                Err(e) => Err(e),
            }
        },
        (SubmitAnyBuilder::CommandBuffer(mut x), SubmitAnyBuilder::CommandBuffer(y)) => {
            x.merge(y);
            Ok(SubmitAnyBuilder::CommandBuffer(x))
        },
        (SubmitAnyBuilder::QueuePresent(x), SubmitAnyBuilder::QueuePresent(y)) => {
            let q1 = match first_queue {
                Some(q) => q,
                None => {
                    return Err(FutureError::MissingQueue);
                },
            };
            let q2 = match second_queue {
                Some(q) => q,
                None => {
                    return Err(FutureError::MissingQueue);
                },
            };
            let ghost dev_start = *dev;
            match x.submit(q1, dev) {
                Ok(()) => {},
                Err(e) => {
                    return Err(e);
                },
            }
            proof {
                if old(dev).all_clear() {
                    crate::device::lemma_all_clear_evolves(*old(dev), *dev);
                }
            }
            let ghost dev_mid = *dev;
            match y.submit(q2, dev) {
                Ok(()) => {
                    proof {
                        crate::device::lemma_evolves_trans(dev_start, dev_mid, *dev);
                    }
                    Ok(SubmitAnyBuilder::Empty)
                },
                Err(e) => {
                    proof {
                        crate::device::lemma_evolves_trans(dev_start, dev_mid, *dev);
                    }
                    Err(e)
                },
            }
        },
        (SubmitAnyBuilder::CommandBuffer(_), SubmitAnyBuilder::QueuePresent(_)) => Err(
            FutureError::IllegalComposition,
        ),
        (SubmitAnyBuilder::QueuePresent(_), SubmitAnyBuilder::CommandBuffer(_)) => Err(
            FutureError::IllegalComposition,
        ),
    }
}

// ------------------------------------------------------------------
// Cleanup, signalling, disposal.
// ------------------------------------------------------------------

impl GpuFuture {
    /// Declares that the GPU has observed completion of this node's
    /// submission; the declaration propagates to every predecessor.  Calling
    /// it before every fence-signal node on the chain was flushed would
    /// corrupt the accounting, so that is required away.
    pub fn signal_finished(&self)
        requires
            signal_ready(*self),
        decreases height(*self), 3nat,
    {
        match self {
            GpuFuture::Dummy { .. } => {},
            GpuFuture::Join(j) => {
                (*j.first).signal_finished();
                (*j.second).signal_finished();
            },
            GpuFuture::SemaphoreSignal(s) => (*s.previous).signal_finished(),
            GpuFuture::FenceSignal(fs) => match &fs.state {
                FenceSignalState::Flushed(p, _) => {
                    proof {
                        assert(fence_signal_ready(*fs));
                        assert(signal_ready(**p));
                    }
                    (**p).signal_finished()
                },
                _ => {},
            },
            GpuFuture::Execute(e) => (*e.previous).signal_finished(),
            GpuFuture::Present(p) => (*p.previous).signal_finished(),
            GpuFuture::SharedFenceSignal(sh) => match &sh.inner.state {
                FenceSignalState::Flushed(p, _) => {
                    proof {
                        assert(fence_signal_ready(sh.inner));
                        assert(signal_ready(**p));
                    }
                    (**p).signal_finished()
                },
                _ => {},
            },
        }
    }

    /// Non-blocking probe: every flushed fence-signal node whose fence the
    /// device has signalled releases its predecessor and its fence.
    pub fn cleanup_finished(&mut self, dev: &Device)
        requires
            wf(*old(self), *dev),
        ensures
            wf(*final (self), *dev),
            stable_profile(*old(self), *final (self)),
            is_flushed(*old(self)) ==> is_flushed(*final (self)),
            signal_ready(*old(self)) ==> signal_ready(*final (self)),
        decreases height(*old(self)), 3nat,
    {
        match self {
            GpuFuture::Dummy { .. } => {},
            GpuFuture::Join(j) => {
                proof {
                    assert(height(*j.first) < height(*old(self)));
                }
                j.first.cleanup_finished(dev);
                j.second.cleanup_finished(dev);
            },
            GpuFuture::SemaphoreSignal(s) => {
                s.previous.cleanup_finished(dev);
            },
            GpuFuture::FenceSignal(fs) => {
                fs.cleanup_finished(dev);
            },
            GpuFuture::Execute(e) => {
                e.previous.cleanup_finished(dev);
            },
            GpuFuture::Present(p) => {
                p.previous.cleanup_finished(dev);
            },
            GpuFuture::SharedFenceSignal(sh) => {
                sh.inner.cleanup_finished(dev);
            },
        }
    }
}

impl GpuFuture {
    /// Marks a node whose built accumulator was just submitted by a joining
    /// sibling: the work is on the device, so the node must never hand it
    /// out again.  Only flags change.
    fn mark_flushed(&mut self, Ghost(dev): Ghost<Device>)
        requires
            wf(*old(self), dev),
            mark_ready(*old(self)),
        ensures
            wf(*final (self), dev),
            is_flushed(*final (self)),
            signal_ready(*final (self)),
            stable_profile(*old(self), *final (self)),
        decreases height(*old(self)), 3nat,
    {
        proof {
            if is_flushed(*old(self)) {
                lemma_flushed_signal_ready(*old(self), dev);
            }
        }
        match self {
            GpuFuture::Dummy { .. } => {},
            GpuFuture::Join(j) => {
                proof {
                    assert(height(*j.first) < height(*old(self)));
                    if is_flushed(*old(self)) {
                        lemma_flushed_signal_ready(*j.first, dev);
                        lemma_flushed_signal_ready(*j.second, dev);
                    }
                }
                j.first.mark_flushed(Ghost(dev));
                j.second.mark_flushed(Ghost(dev));
            },
            GpuFuture::SemaphoreSignal(_) => {},
            GpuFuture::FenceSignal(_) => {},
            GpuFuture::Execute(e) => {
                e.submitted = true;
            },
            GpuFuture::Present(p) => {
                p.flushed = true;
            },
            GpuFuture::SharedFenceSignal(_) => {},
        }
    }
}

impl FenceSignalFuture {
    /// Non-blocking probe of this node alone: if flushed and the fence is
    /// observed signalled, the predecessor and the fence are released.
    pub fn cleanup_finished(&mut self, dev: &Device)
        requires
            fence_wf(*old(self), *dev),
        ensures
            fence_wf(*final (self), *dev),
            final (self).device == old(self).device,
            fence_transition_ok(old(self).state, final (self).state),
            final (self).state is Cleaned <==> (old(self).state is Cleaned || (old(
                self,
            ).state matches FenceSignalState::Flushed(p, fc) && dev.fences@[fc as int]
                is Signalled)),
            !(final (self).state is Cleaned) ==> *final (self) == *old(self),
            fence_flushed(*old(self)) ==> fence_flushed(*final (self)),
            fence_signal_ready(*old(self)) ==> fence_signal_ready(*final (self)),
        decreases fence_height(*old(self)), 0nat,
    {
        let probe = match &self.state {
            FenceSignalState::Flushed(_, fc) => Some(*fc),
            _ => None,
        };
        match probe {
            Some(fc) => {
                if dev.probe_fence(fc) {
                    self.state = FenceSignalState::Cleaned;
                }
            },
            None => {},
        }
    }

    /// Declares that the GPU has observed completion; propagates to the
    /// predecessor still held.
    pub fn signal_finished(&self)
        requires
            fence_signal_ready(*self),
        decreases fence_height(*self), 1nat,
    {
        match &self.state {
            FenceSignalState::Flushed(p, _) => (**p).signal_finished(),
            _ => {},
        }
    }

    /// What dropping the node does: a last flush (errors ignored), then, if
    /// flushed, a blocking wait on the fence and a finished-signal to the
    /// predecessor.  A node that could not be flushed simply releases what
    /// it holds.
    pub fn dispose(self, dev: &mut Device)
        requires
            fence_wf(self, *old(dev)),
            self.device == old(dev).id,
        ensures
            old(dev).evolves_to(*final (dev)),
            fence_flushed(self) ==> final (dev).submissions@ == old(dev).submissions@,
    {
        let mut this = self;
        let flush_outcome = this.flush(dev);
        proof {
            if fence_flushed(self) {
                assert(this == self);
            }
        }
        match this.state {
            FenceSignalState::Flushed(previous, fence) => {
                let ghost dev_flushed = *dev;
                match dev.wait_fence(fence) {
                    Ok(()) => {},
                    Err(_) => {
                        proof {
                            assert(false);
                        }
                    },
                }
                proof {
                    crate::device::lemma_evolves_trans(*old(dev), dev_flushed, *dev);
                }
                (*previous).signal_finished();
            },
            _ => {},
        }
    }

    /// Wraps the flushed node in a shared handle whose build-submission is
    /// pinned to the empty accumulator.
    pub fn shared(self) -> (r: SharedFenceSignalFuture)
        requires
            fence_flushed(self),
        ensures
            r.inner == self,
    {
        SharedFenceSignalFuture { inner: self }
    }
}

// ------------------------------------------------------------------
// Construction: the seed node and the combinators.
// ------------------------------------------------------------------

/// Joins two futures: both events must happen.  The chains must live on one
/// device, and two sides pinned to queues must agree on the queue.
pub fn join(first: GpuFuture, second: GpuFuture) -> (r: Result<JoinFuture, FutureError>)
    ensures
        r matches Ok(j) ==> *j.first == first && *j.second == second,
        r is Err <==> device_of(second) != device_of(first) || (!queue_change_allowed_of(first)
            && !queue_change_allowed_of(second) && !(queue_of(first) is Some && queue_of(second)
            == queue_of(first))),
        device_of(second) != device_of(first) ==> r == Err::<JoinFuture, FutureError>(
            FutureError::DeviceMismatch,
        ),
        r matches Err(e) ==> e is DeviceMismatch || e is QueueMismatch,
{
    if first.device() != second.device() {
        return Err(FutureError::DeviceMismatch);
    }
    if !first.queue_change_allowed() && !second.queue_change_allowed() {
        let ok = match (first.queue(), second.queue()) {
            (Some(q1), Some(q2)) => q1.is_same(&q2),
            _ => false,
        };
        if !ok {
            return Err(FutureError::QueueMismatch);
        }
    }
    Ok(JoinFuture { first: Box::new(first), second: Box::new(second) })
}

/// Builds a new fence-signal future: allocates a fresh fence and stores the
/// pending state.  The predecessor's queue must be known.
pub fn then_signal_fence(future: GpuFuture, dev: &mut Device) -> (r: FenceSignalFuture)
    requires
        wf(future, *old(dev)),
        device_of(future) == old(dev).id,
        queue_of(future) is Some,
    ensures
        fence_wf(r, *final (dev)),
        r.device == old(dev).id,
        r.state matches FenceSignalState::Pending(p, fc) && *p == future && fc == old(dev).fences@.len(),
        final (dev).fences@ == old(dev).fences@.push(crate::device::FenceStatus::Unsubmitted),
        final (dev).submissions@ == old(dev).submissions@,
        final (dev).id == old(dev).id,
        final (dev).semaphore_count == old(dev).semaphore_count,
        final (dev).fail_plan@ == old(dev).fail_plan@,
        old(dev).evolves_to(*final (dev)),
{
    let device = future.device();
    let fence = dev.new_fence();
    proof {
        lemma_wf_evolves(future, *old(dev), *dev);
    }
    FenceSignalFuture { device, state: FenceSignalState::Pending(Box::new(future), fence) }
}

impl GpuFuture {
    /// The zero-work anchor of a chain on a device; its queue is unknown.
    pub fn dummy(device: u64) -> (r: GpuFuture)
        ensures
            r == (GpuFuture::Dummy { device, queue: None::<QueueRef> }),
    {
        GpuFuture::Dummy { device, queue: None }
    }

    /// A zero-work anchor pinned to a queue, for chains whose first real
    /// work is a bare fence or semaphore signal.
    pub fn dummy_on_queue(device: u64, queue: QueueRef) -> (r: GpuFuture)
        requires
            queue.device == device,
        ensures
            r == (GpuFuture::Dummy { device, queue: Some(queue) }),
    {
        GpuFuture::Dummy { device, queue: Some(queue) }
    }

    /// Joins this future with another one, representing the moment when both
    /// events have happened.
    pub fn join(self, other: GpuFuture) -> (r: Result<GpuFuture, FutureError>)
        ensures
            r matches Ok(f) ==> (f matches GpuFuture::Join(j) && *j.first == self && *j.second
                == other),
            r is Err <==> device_of(other) != device_of(self) || (!queue_change_allowed_of(self)
                && !queue_change_allowed_of(other) && !(queue_of(self) is Some && queue_of(other)
                == queue_of(self))),
            r matches Err(e) ==> e is DeviceMismatch || e is QueueMismatch,
    {
        match join(self, other) {
            Ok(j) => Ok(GpuFuture::Join(j)),
            Err(e) => Err(e),
        }
    }

    /// Executes a recorded command buffer on a queue after this future.  The
    /// command buffer must be recorded against the chain's device, and a
    /// chain that cannot change queues pins the choice.
    pub fn then_execute(self, queue: QueueRef, command_buffer: CommandBuffer) -> (r: Result<
        GpuFuture,
        FutureError,
    >)
        ensures
            r matches Ok(f) ==> (f matches GpuFuture::Execute(e) && *e.previous == self && e.queue
                == queue && e.command_buffer == command_buffer && e.submitted == false),
            r is Err <==> command_buffer.device != device_of(self) || queue.device != device_of(
                self,
            ) || (!queue_change_allowed_of(self) && queue_of(self) != Some(queue)),
            r matches Err(e) ==> e is DeviceMismatch || e is QueueMismatch,
    {
        if command_buffer.device != self.device() || queue.device != self.device() {
            return Err(FutureError::DeviceMismatch);
        }
        if !self.queue_change_allowed() {
            let pinned = match self.queue() {
                Some(q) => q.is_same(&queue),
                None => false,
            };
            if !pinned {
                return Err(FutureError::QueueMismatch);
            }
        }
        Ok(
            GpuFuture::Execute(
                CommandBufferExecFuture {
                    previous: Box::new(self),
                    queue,
                    command_buffer,
                    submitted: false,
                },
            ),
        )
    }

    /// Executes a recorded command buffer after this future, on the same
    /// queue as the future; fails when that queue is unknown.
    pub fn then_execute_same_queue(self, command_buffer: CommandBuffer) -> (r: Result<
        GpuFuture,
        FutureError,
    >)
        ensures
            queue_of(self) is None ==> r == Err::<GpuFuture, FutureError>(
                FutureError::MissingQueue,
            ),
            r matches Ok(f) ==> (f matches GpuFuture::Execute(e) && *e.previous == self
                && Some(e.queue) == queue_of(self) && e.command_buffer == command_buffer
                && e.submitted == false),
            r matches Err(e) ==> e is DeviceMismatch || e is QueueMismatch || e is MissingQueue,
    {
        let queue = match self.queue() {
            Some(q) => q,
            None => {
                return Err(FutureError::MissingQueue);
            },
        };
        self.then_execute(queue, command_buffer)
    }

    /// Signals a fresh semaphore after this future, so that work on another
    /// queue can wait for it.  The predecessor's queue must be known, since
    /// the signalling submission runs there.
    pub fn then_signal_semaphore(self, dev: &mut Device) -> (r: Result<GpuFuture, FutureError>)
        requires
            old(dev).semaphore_count < u64::MAX,
        ensures
            old(dev).evolves_to(*final (dev)),
            final (dev).submissions@ == old(dev).submissions@,
            final (dev).fences@ == old(dev).fences@,
            final (dev).fail_plan@ == old(dev).fail_plan@,
            queue_of(self) is None ==> r == Err::<GpuFuture, FutureError>(
                FutureError::MissingQueue,
            ) && final (dev).semaphore_count == old(dev).semaphore_count,
            queue_of(self) is Some ==> (r matches Ok(f) && (f
                matches GpuFuture::SemaphoreSignal(s) && *s.previous == self && s.semaphore == old(dev).semaphore_count && s.flushed == false)) && final (dev).semaphore_count == old(dev).semaphore_count + 1,
    {
        proof {
            crate::device::lemma_evolves_refl(*dev);
        }
        match self.queue() {
            Some(_) => {},
            None => {
                return Err(FutureError::MissingQueue);
            },
        }
        let semaphore = dev.new_semaphore();
        Ok(
            GpuFuture::SemaphoreSignal(
                SemaphoreSignalFuture { previous: Box::new(self), semaphore, flushed: false },
            ),
        )
    }

    /// Signals a fresh semaphore after this future and flushes at once.  On
    /// a flush failure the error surfaces and the chain is given up.
    pub fn then_signal_semaphore_and_flush(self, dev: &mut Device) -> (r: Result<
        GpuFuture,
        FutureError,
    >)
        requires
            wf(self, *old(dev)),
            device_of(self) == old(dev).id,
            old(dev).semaphore_count < u64::MAX,
        ensures
            old(dev).evolves_to(*final (dev)),
            r matches Ok(f) ==> is_flushed(f) && wf(f, *final (dev)),
            queue_of(self) is None ==> r == Err::<GpuFuture, FutureError>(
                FutureError::MissingQueue,
            ),
    {
        let ghost dev0 = *old(dev);
        let mut f = match self.then_signal_semaphore(dev) {
            Ok(f) => f,
            Err(e) => {
                return Err(e);
            },
        };
        let ghost dev_mid = *dev;
        proof {
            lemma_wf_evolves(self, dev0, *dev);
        }
        match f.flush(dev) {
            Ok(()) => {
                proof {
                    crate::device::lemma_evolves_trans(dev0, dev_mid, *dev);
                }
                Ok(f)
            },
            Err(e) => {
                proof {
                    crate::device::lemma_evolves_trans(dev0, dev_mid, *dev);
                }
                Err(e)
            },
        }
    }

    /// Signals a fresh fence after this future.  The predecessor's queue
    /// must be known, since the signalling submission runs there.
    pub fn then_signal_fence(self, dev: &mut Device) -> (r: FenceSignalFuture)
        requires
            wf(self, *old(dev)),
            device_of(self) == old(dev).id,
            queue_of(self) is Some,
        ensures
            fence_wf(r, *final (dev)),
            r.device == old(dev).id,
            r.state matches FenceSignalState::Pending(p, fc) && *p == self && fc == old(dev).fences@.len(),
            final (dev).submissions@ == old(dev).submissions@,
            final (dev).fail_plan@ == old(dev).fail_plan@,
            final (dev).fences@ == old(dev).fences@.push(crate::device::FenceStatus::Unsubmitted),
            final (dev).semaphore_count == old(dev).semaphore_count,
            old(dev).evolves_to(*final (dev)),
    {
        then_signal_fence(self, dev)
    }

    /// Signals a fresh fence after this future and flushes at once.  On a
    /// flush failure the error surfaces and the node is disposed of, which
    /// releases what it holds.
    pub fn then_signal_fence_and_flush(self, dev: &mut Device) -> (r: Result<
        FenceSignalFuture,
        FutureError,
    >)
        requires
            wf(self, *old(dev)),
            device_of(self) == old(dev).id,
            queue_of(self) is Some,
        ensures
            old(dev).evolves_to(*final (dev)),
            r matches Ok(f) ==> fence_flushed(f) && fence_wf(f, *final (dev)) && f.device == old(dev).id,
    {
        let ghost dev0 = *old(dev);
        let mut f = self.then_signal_fence(dev);
        let ghost dev_mid = *dev;
        match f.flush(dev) {
            Ok(()) => {
                proof {
                    crate::device::lemma_evolves_trans(dev0, dev_mid, *dev);
                }
                Ok(f)
            },
            Err(e) => {
                let ghost dev_failed = *dev;
                f.dispose(dev);
                proof {
                    crate::device::lemma_evolves_trans(dev_mid, dev_failed, *dev);
                    crate::device::lemma_evolves_trans(dev0, dev_mid, *dev);
                }
                Err(e)
            },
        }
    }

    /// Presents a swapchain image on a queue after this future.  A chain
    /// that cannot change queues pins the choice.
    pub fn then_swapchain_present(self, queue: QueueRef, swapchain: u64, image_index: u64) -> (r:
        Result<GpuFuture, FutureError>)
        ensures
            r matches Ok(f) ==> (f matches GpuFuture::Present(p) && *p.previous == self && p.queue
                == queue && p.swapchain == swapchain && p.image_index == image_index && p.flushed
                == false),
            r is Err <==> queue.device != device_of(self) || (!queue_change_allowed_of(self)
                && queue_of(self) != Some(queue)),
            r matches Err(e) ==> e is DeviceMismatch || e is QueueMismatch,
    {
        if queue.device != self.device() {
            return Err(FutureError::DeviceMismatch);
        }
        if !self.queue_change_allowed() {
            let pinned = match self.queue() {
                Some(q) => q.is_same(&queue),
                None => false,
            };
            if !pinned {
                return Err(FutureError::QueueMismatch);
            }
        }
        Ok(
            GpuFuture::Present(
                PresentFuture {
                    previous: Box::new(self),
                    queue,
                    swapchain,
                    image_index,
                    flushed: false,
                },
            ),
        )
    }
}

// ------------------------------------------------------------------
// Queue pinning: what a pinned chain forces on its successors.
// ------------------------------------------------------------------

/// A command-buffer execution built after a chain that cannot change queues
/// targets exactly that chain's queue.
pub proof fn lemma_execute_queue_pinned(e: CommandBufferExecFuture, dev: Device)
    requires
        wf(GpuFuture::Execute(e), dev),
        !queue_change_allowed_of(*e.previous),
    ensures
        queue_of(*e.previous) == Some(e.queue),
{
}

/// A present built after a chain that cannot change queues targets exactly
/// that chain's queue.
pub proof fn lemma_present_queue_pinned(p: PresentFuture, dev: Device)
    requires
        wf(GpuFuture::Present(p), dev),
        !queue_change_allowed_of(*p.previous),
    ensures
        queue_of(*p.previous) == Some(p.queue),
{
}

/// A join built after a chain that cannot change queues inherits that
/// chain's queue, so successors of the join target it too.
pub proof fn lemma_join_queue_pinned(j: JoinFuture, dev: Device)
    requires
        wf(GpuFuture::Join(j), dev),
        !queue_change_allowed_of(*j.first),
        queue_of(*j.first) is Some,
    ensures
        queue_of(GpuFuture::Join(j)) == queue_of(*j.first),
{
}

// ------------------------------------------------------------------
// Deep copies.
// ------------------------------------------------------------------

impl GpuFuture {
    /// Deep copy of the node tree.  As with a derived clone, nothing is
    /// specified of the result.
    pub fn duplicate(&self) -> GpuFuture
        decreases height(*self), 3nat,
    {
        match self {
            GpuFuture::Dummy { device, queue } => GpuFuture::Dummy {
                device: *device,
                queue: *queue,
            },
            GpuFuture::Join(j) => GpuFuture::Join(
                JoinFuture {
                    first: Box::new((*j.first).duplicate()),
                    second: Box::new((*j.second).duplicate()),
                },
            ),
            GpuFuture::SemaphoreSignal(s) => GpuFuture::SemaphoreSignal(
                SemaphoreSignalFuture {
                    previous: Box::new((*s.previous).duplicate()),
                    semaphore: s.semaphore,
                    flushed: s.flushed,
                },
            ),
            GpuFuture::FenceSignal(fs) => GpuFuture::FenceSignal(fs.duplicate()),
            GpuFuture::Execute(e) => GpuFuture::Execute(
                CommandBufferExecFuture {
                    previous: Box::new((*e.previous).duplicate()),
                    queue: e.queue,
                    command_buffer: e.command_buffer.clone(),
                    submitted: e.submitted,
                },
            ),
            GpuFuture::Present(p) => GpuFuture::Present(
                PresentFuture {
                    previous: Box::new((*p.previous).duplicate()),
                    queue: p.queue,
                    swapchain: p.swapchain,
                    image_index: p.image_index,
                    flushed: p.flushed,
                },
            ),
            GpuFuture::SharedFenceSignal(sh) => GpuFuture::SharedFenceSignal(
                SharedFenceSignalFuture { inner: sh.inner.duplicate() },
            ),
        }
    }
}

impl FenceSignalFuture {
    /// Deep copy of the node.  As with a derived clone, nothing is
    /// specified of the result.
    pub fn duplicate(&self) -> FenceSignalFuture
        decreases fence_height(*self), 1nat,
    {
        let state = match &self.state {
            FenceSignalState::Pending(p, fc) => FenceSignalState::Pending(
                Box::new((**p).duplicate()),
                *fc,
            ),
            FenceSignalState::PartiallyFlushed(p, fc) => FenceSignalState::PartiallyFlushed(
                Box::new((**p).duplicate()),
                *fc,
            ),
            FenceSignalState::Flushed(p, fc) => FenceSignalState::Flushed(
                Box::new((**p).duplicate()),
                *fc,
            ),
            FenceSignalState::Cleaned => FenceSignalState::Cleaned,
            FenceSignalState::Poisoned => FenceSignalState::Poisoned,
        };
        FenceSignalFuture { device: self.device, state }
    }
}

impl Clone for SharedFenceSignalFuture {
    /// Another handle to the same flushed fence-signal node.
    fn clone(&self) -> SharedFenceSignalFuture {
        SharedFenceSignalFuture { inner: self.inner.duplicate() }
    }
}

} // verus!
