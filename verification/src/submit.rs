//! Partially built device submissions.
//!
//! A flush folds a chain into one of these accumulators: nothing, a set of
//! semaphores that successor work must wait on, a command-buffer batch that
//! can still absorb more command buffers, waits, signals and one fence, or a
//! present batch that can still absorb waits and images.

use crate::device::{Device, FutureError, QueueRef, Submission};
use vstd::prelude::*;

verus! {

/// A set of semaphores that successor work must wait on before starting.
#[derive(Clone, PartialEq, Eq, Debug)]
pub struct SemaphoresWaitBuilder {
    pub semaphores: Vec<u64>,
}

impl SemaphoresWaitBuilder {
    /// An empty set of semaphores.
    pub fn new() -> (r: SemaphoresWaitBuilder)
        ensures
            r.semaphores@ == Seq::<u64>::empty(),
    {
        SemaphoresWaitBuilder { semaphores: Vec::new() }
    }

    /// Absorbs another set of waits, keeping order: ours first.
    pub fn merge(&mut self, other: SemaphoresWaitBuilder)
        ensures
            final (self).semaphores@ == old(self).semaphores@ + other.semaphores@,
    {
        let mut rest = other.semaphores;
        self.semaphores.append(&mut rest);
    }

    /// Turns the waits into a command-buffer batch with no command buffers,
    /// no signals and no fence.
    pub fn into_command_buffer_builder(self) -> (b: SubmitCommandBufferBuilder)
        ensures
            b.wait_semaphores@ == self.semaphores@,
            b.command_buffers@ == Seq::<u64>::empty(),
            b.signal_semaphores@ == Seq::<u64>::empty(),
            b.signal_fence is None,
    {
        SubmitCommandBufferBuilder {
            wait_semaphores: self.semaphores,
            command_buffers: Vec::new(),
            signal_semaphores: Vec::new(),
            signal_fence: None,
        }
    }
}

/// A command-buffer batch under construction.
#[derive(Clone, PartialEq, Eq, Debug)]
pub struct SubmitCommandBufferBuilder {
    pub wait_semaphores: Vec<u64>,
    pub command_buffers: Vec<u64>,
    pub signal_semaphores: Vec<u64>,
    pub signal_fence: Option<u64>,
}

impl SubmitCommandBufferBuilder {
    /// An empty batch.
    pub fn new() -> (r: SubmitCommandBufferBuilder)
        ensures
            r.wait_semaphores@ == Seq::<u64>::empty(),
            r.command_buffers@ == Seq::<u64>::empty(),
            r.signal_semaphores@ == Seq::<u64>::empty(),
            r.signal_fence is None,
    {
        SubmitCommandBufferBuilder {
            wait_semaphores: Vec::new(),
            command_buffers: Vec::new(),
            signal_semaphores: Vec::new(),
            signal_fence: None,
        }
    }

    /// Whether a fence signal is already attached.
    pub fn has_fence(&self) -> (r: bool)
        ensures
            r == (self.signal_fence is Some),
    {
        match self.signal_fence {
            Some(_) => true,
            None => false,
        }
    }

    /// Attaches the one fence this batch signals on completion.
    pub fn set_fence_signal(&mut self, fence: u64)
        requires
            old(self).signal_fence is None,
        ensures
            final (self).signal_fence == Some(fence),
            final (self).wait_semaphores@ == old(self).wait_semaphores@,
            final (self).command_buffers@ == old(self).command_buffers@,
            final (self).signal_semaphores@ == old(self).signal_semaphores@,
    {
        self.signal_fence = Some(fence);
    }

    /// Appends one command buffer to the batch.
    pub fn add_command_buffer(&mut self, command_buffer: u64)
        ensures
            final (self).command_buffers@ == old(self).command_buffers@.push(command_buffer),
            final (self).wait_semaphores@ == old(self).wait_semaphores@,
            final (self).signal_semaphores@ == old(self).signal_semaphores@,
            final (self).signal_fence == old(self).signal_fence,
    {
        self.command_buffers.push(command_buffer);
    }

    /// Appends one semaphore to signal on completion.
    pub fn add_signal_semaphore(&mut self, semaphore: u64)
        ensures
            final (self).signal_semaphores@ == old(self).signal_semaphores@.push(semaphore),
            final (self).wait_semaphores@ == old(self).wait_semaphores@,
            final (self).command_buffers@ == old(self).command_buffers@,
            final (self).signal_fence == old(self).signal_fence,
    {
        self.signal_semaphores.push(semaphore);
    }

    /// Absorbs another batch: waits, command buffers and signals are
    /// appended in order, ours first.  At most one side may carry a fence.
    pub fn merge(&mut self, other: SubmitCommandBufferBuilder)
        requires
            !(old(self).signal_fence is Some && other.signal_fence is Some),
        ensures
            final (self).wait_semaphores@ == old(self).wait_semaphores@ + other.wait_semaphores@,
            final (self).command_buffers@ == old(self).command_buffers@ + other.command_buffers@,
            final (self).signal_semaphores@ == old(self).signal_semaphores@
                + other.signal_semaphores@,
            final (self).signal_fence == if old(self).signal_fence is Some {
                old(self).signal_fence
            } else {
                other.signal_fence
            },
    {
        let SubmitCommandBufferBuilder {
            wait_semaphores: mut w,
            command_buffers: mut c,
            signal_semaphores: mut s,
            signal_fence: f,
        } = other;
        self.wait_semaphores.append(&mut w);
        self.command_buffers.append(&mut c);
        self.signal_semaphores.append(&mut s);
        if self.signal_fence.is_none() {
            self.signal_fence = f;
        }
    }

    /// Hands the batch to the driver on the given queue.
    pub fn submit(self, queue: QueueRef, dev: &mut Device) -> (r: Result<(), FutureError>)
        requires
            queue.device == old(dev).id,
            self.signal_fence matches Some(f) ==> (f as int) < old(dev).fences@.len(),
        ensures
            old(dev).evolves_to(*final (dev)),
            r is Err <==> old(dev).next_refused(),
            r matches Err(e) ==> e == FutureError::SubmitRefused,
            r is Err ==> final (dev).submissions@ == old(dev).submissions@,
            r is Err ==> final (dev).fences@ == old(dev).fences@,
            r is Ok ==> final (dev).submissions@ == old(dev).submissions@.push(
                Submission::Execute {
                    queue,
                    wait_semaphores: self.wait_semaphores,
                    command_buffers: self.command_buffers,
                    signal_semaphores: self.signal_semaphores,
                    fence: self.signal_fence,
                },
            ),
            r is Ok ==> final (dev).fences@ == match self.signal_fence {
                Some(f) => if old(dev).fences@[f as int] is Unsubmitted {
                    old(dev).fences@.update(f as int, crate::device::FenceStatus::Submitted)
                } else {
                    old(dev).fences@
                },
                None => old(dev).fences@,
            },
            final (dev).id == old(dev).id,
            final (dev).semaphore_count == old(dev).semaphore_count,
    {
        dev.submit_execute(
            queue,
            self.wait_semaphores,
            self.command_buffers,
            self.signal_semaphores,
            self.signal_fence,
        )
    }
}

/// A present batch under construction.
#[derive(Clone, PartialEq, Eq, Debug)]
pub struct SubmitPresentBuilder {
    pub wait_semaphores: Vec<u64>,
    pub images: Vec<(u64, u64)>,
}

impl SubmitPresentBuilder {
    /// An empty batch.
    pub fn new() -> (r: SubmitPresentBuilder)
        ensures
            r.wait_semaphores@ == Seq::<u64>::empty(),
            r.images@ == Seq::<(u64, u64)>::empty(),
    {
        SubmitPresentBuilder { wait_semaphores: Vec::new(), images: Vec::new() }
    }

    /// Appends semaphores the present must wait on.
    pub fn add_wait_semaphores(&mut self, semaphores: Vec<u64>)
        ensures
            final (self).wait_semaphores@ == old(self).wait_semaphores@ + semaphores@,
            final (self).images@ == old(self).images@,
    {
        let mut rest = semaphores;
        self.wait_semaphores.append(&mut rest);
    }

    /// Appends one swapchain image to present.
    pub fn add_swapchain(&mut self, swapchain: u64, image_index: u64)
        ensures
            final (self).images@ == old(self).images@.push((swapchain, image_index)),
            final (self).wait_semaphores@ == old(self).wait_semaphores@,
    {
        self.images.push((swapchain, image_index));
    }

    /// Hands the batch to the driver on the given queue.
    pub fn submit(self, queue: QueueRef, dev: &mut Device) -> (r: Result<(), FutureError>)
        requires
            queue.device == old(dev).id,
        ensures
            old(dev).evolves_to(*final (dev)),
            r is Err <==> old(dev).next_refused(),
            r matches Err(e) ==> e == FutureError::SubmitRefused,
            r is Err ==> final (dev).submissions@ == old(dev).submissions@,
            r is Ok ==> final (dev).submissions@ == old(dev).submissions@.push(
                Submission::Present {
                    queue,
                    wait_semaphores: self.wait_semaphores,
                    images: self.images,
                },
            ),
            final (dev).fences@ == old(dev).fences@,
            final (dev).id == old(dev).id,
            final (dev).semaphore_count == old(dev).semaphore_count,
    {
        dev.submit_present(queue, self.wait_semaphores, self.images)
    }
}

/// The accumulator a flush folds a chain into.
#[derive(Clone, PartialEq, Eq, Debug)]
pub enum SubmitAnyBuilder {
    /// Nothing to submit.
    Empty,
    /// Successor work must wait on these semaphores before starting.
    SemaphoresWait(SemaphoresWaitBuilder),
    /// A command-buffer batch that may still grow.
    CommandBuffer(SubmitCommandBufferBuilder),
    /// A present batch that may still grow.
    QueuePresent(SubmitPresentBuilder),
}

} // verus!
