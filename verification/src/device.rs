//! The device model: queues, fences, semaphores, and the record of accepted
//! submissions.
//!
//! The device is the sink of the flush algorithm.  It keeps every submission
//! it accepted, in order, and tracks the lifecycle of each fence.  Whether the
//! driver accepts or refuses a submission is decided by a failure plan: the
//! front entry of `fail_plan` decides the next submit attempt (an exhausted
//! plan accepts everything), which lets partial-failure behaviour be exercised
//! deterministically.

use vstd::prelude::*;

verus! {

/// Identity of a queue: the device it belongs to and its index on that device.
#[derive(Clone, Copy, PartialEq, Eq, Structural, Debug)]
pub struct QueueRef {
    pub device: u64,
    pub index: u64,
}

impl QueueRef {
    /// Queue identity comparison.
    pub fn is_same(&self, other: &QueueRef) -> (r: bool)
        ensures
            r == (*self == *other),
    {
        self.device == other.device && self.index == other.index
    }
}

/// Everything that can go wrong while composing or flushing a chain.
#[derive(Clone, Copy, PartialEq, Eq, Structural, Debug)]
pub enum FutureError {
    /// The driver refused a submission.
    SubmitRefused,
    /// A host-side wait on a fence did not observe the signal.
    FenceWaitFailed,
    /// Two chains on different devices were composed.
    DeviceMismatch,
    /// Both sides of a join are pinned to different queues.
    QueueMismatch,
    /// A combinator needed the predecessor's queue, which is unknown.
    MissingQueue,
    /// A command-buffer batch met a present batch, which cannot be merged.
    IllegalComposition,
}

/// Lifecycle of a fence.  A fence moves forward only:
/// unsubmitted, then attached to an accepted submission, then signalled.
#[derive(Clone, Copy, PartialEq, Eq, Structural, Debug)]
pub enum FenceStatus {
    Unsubmitted,
    Submitted,
    Signalled,
}

/// `b` is at least as far along as `a`.
pub open spec fn fence_status_le(a: FenceStatus, b: FenceStatus) -> bool {
    match a {
        FenceStatus::Unsubmitted => true,
        FenceStatus::Submitted => b is Submitted || b is Signalled,
        FenceStatus::Signalled => b is Signalled,
    }
}

/// One submission accepted by the device, exactly as it was handed over.
#[derive(Clone, PartialEq, Eq, Debug)]
pub enum Submission {
    /// A command-buffer batch.
    Execute {
        queue: QueueRef,
        wait_semaphores: Vec<u64>,
        command_buffers: Vec<u64>,
        signal_semaphores: Vec<u64>,
        fence: Option<u64>,
    },
    /// A swapchain present; `images` pairs a swapchain with an image index.
    Present { queue: QueueRef, wait_semaphores: Vec<u64>, images: Vec<(u64, u64)> },
}

/// A device: the identity the chains are checked against, the submissions it
/// accepted, the fences and semaphores it allocated, and the failure plan.
#[derive(Debug)]
pub struct Device {
    pub id: u64,
    pub submissions: Vec<Submission>,
    pub fences: Vec<FenceStatus>,
    pub semaphore_count: u64,
    pub fail_plan: Vec<bool>,
}

impl Device {
    /// The next submit attempt will be refused.
    pub open spec fn next_refused(self) -> bool {
        self.fail_plan@.len() > 0 && self.fail_plan@[0]
    }

    /// No submit attempt will ever be refused.
    pub open spec fn all_clear(self) -> bool {
        forall|i: int| 0 <= i < self.fail_plan@.len() ==> !self.fail_plan@[i]
    }

    /// How a device may change under any operation of this library: the
    /// identity is fixed, accepted submissions are only appended, fences are
    /// only allocated and only move forward, semaphores are only allocated,
    /// and the failure plan is only consumed from the front.
    pub open spec fn evolves_to(self, later: Device) -> bool {
        &&& later.id == self.id
        &&& self.submissions@.is_prefix_of(later.submissions@)
        &&& later.fences@.len() >= self.fences@.len()
        &&& forall|i: int|
            0 <= i < self.fences@.len() ==> fence_status_le(self.fences@[i], later.fences@[i])
        &&& later.semaphore_count >= self.semaphore_count
        &&& later.fail_plan@.len() <= self.fail_plan@.len()
        &&& later.fail_plan@ == self.fail_plan@.subrange(
            self.fail_plan@.len() - later.fail_plan@.len(),
            self.fail_plan@.len() as int,
        )
    }

    /// A fresh device with nothing submitted, nothing allocated, and a plan
    /// that accepts everything.
    pub fn new(id: u64) -> (d: Device)
        ensures
            d.id == id,
            d.submissions@ == Seq::<Submission>::empty(),
            d.fences@ == Seq::<FenceStatus>::empty(),
            d.semaphore_count == 0,
            d.fail_plan@ == Seq::<bool>::empty(),
    {
        Device {
            id,
            submissions: Vec::new(),
            fences: Vec::new(),
            semaphore_count: 0,
            fail_plan: Vec::new(),
        }
    }

    /// Allocates a fresh, unsubmitted fence and returns its handle.
    pub fn new_fence(&mut self) -> (f: u64)
        ensures
            final (self).fences@ == old(self).fences@.push(FenceStatus::Unsubmitted),
            f == old(self).fences@.len(),
            final (self).id == old(self).id,
            final (self).submissions@ == old(self).submissions@,
            final (self).semaphore_count == old(self).semaphore_count,
            final (self).fail_plan@ == old(self).fail_plan@,
            old(self).evolves_to(*final (self)),
    {
        let f = self.fences.len() as u64;
        self.fences.push(FenceStatus::Unsubmitted);
        proof {
            assert(old(self).fail_plan@.subrange(0, old(self).fail_plan@.len() as int)
                == old(self).fail_plan@);
        }
        f
    }

    /// Allocates a fresh semaphore and returns its handle.
    pub fn new_semaphore(&mut self) -> (s: u64)
        requires
            old(self).semaphore_count < u64::MAX,
        ensures
            s == old(self).semaphore_count,
            final (self).semaphore_count == old(self).semaphore_count + 1,
            final (self).id == old(self).id,
            final (self).submissions@ == old(self).submissions@,
            final (self).fences@ == old(self).fences@,
            final (self).fail_plan@ == old(self).fail_plan@,
            old(self).evolves_to(*final (self)),
    {
        let s = self.semaphore_count;
        self.semaphore_count = s + 1;
        proof {
            assert(old(self).fail_plan@.subrange(0, old(self).fail_plan@.len() as int)
                == old(self).fail_plan@);
            assert forall|i: int| 0 <= i < old(self).fences@.len() implies fence_status_le(
                old(self).fences@[i],
                self.fences@[i],
            ) by {}
        }
        s
    }

    /// Consumes the front of the failure plan; says whether the attempt is
    /// refused.  An exhausted plan refuses nothing.
    fn next_attempt(&mut self) -> (refused: bool)
        ensures
            refused == old(self).next_refused(),
            final (self).fail_plan@ == if old(self).fail_plan@.len() > 0 {
                old(self).fail_plan@.drop_first()
            } else {
                old(self).fail_plan@
            },
            final (self).id == old(self).id,
            final (self).submissions@ == old(self).submissions@,
            final (self).fences@ == old(self).fences@,
            final (self).semaphore_count == old(self).semaphore_count,
    {
        if self.fail_plan.len() > 0 {
            let refused = self.fail_plan.remove(0);
            proof {
                assert(final (self).fail_plan@ == old(self).fail_plan@.drop_first());
            }
            refused
        } else {
            false
        }
    }

    /// Hands a command-buffer batch to the driver.  On acceptance the
    /// submission is recorded and the attached fence, if any, moves from
    /// unsubmitted to submitted.
    pub fn submit_execute(
        &mut self,
        queue: QueueRef,
        wait_semaphores: Vec<u64>,
        command_buffers: Vec<u64>,
        signal_semaphores: Vec<u64>,
        fence: Option<u64>,
    ) -> (r: Result<(), FutureError>)
        requires
            queue.device == old(self).id,
            fence matches Some(f) ==> (f as int) < old(self).fences@.len(),
        ensures
            old(self).evolves_to(*final (self)),
            r is Err <==> old(self).next_refused(),
            r matches Err(e) ==> e == FutureError::SubmitRefused,
            r is Err ==> final (self).submissions@ == old(self).submissions@,
            r is Err ==> final (self).fences@ == old(self).fences@,
            r is Ok ==> final (self).submissions@ == old(self).submissions@.push(
                Submission::Execute {
                    queue,
                    wait_semaphores,
                    command_buffers,
                    signal_semaphores,
                    fence,
                },
            ),
            r is Ok ==> final (self).fences@ == match fence {
                Some(f) => if old(self).fences@[f as int] is Unsubmitted {
                    old(self).fences@.update(f as int, FenceStatus::Submitted)
                } else {
                    old(self).fences@
                },
                None => old(self).fences@,
            },
            final (self).id == old(self).id,
            final (self).semaphore_count == old(self).semaphore_count,
            final (self).fail_plan@ == if old(self).fail_plan@.len() > 0 {
                old(self).fail_plan@.drop_first()
            } else {
                old(self).fail_plan@
            },
    {
        let refused = self.next_attempt();
        proof {
            lemma_plan_consumed(old(self).fail_plan@, self.fail_plan@);
        }
        if refused {
            return Err(FutureError::SubmitRefused);
        }
        match fence {
            Some(f) => {
                proof {
                    assert(self.fences.len() <= usize::MAX);
                }
                if self.fences[f as usize] == FenceStatus::Unsubmitted {
                    self.fences[f as usize] = FenceStatus::Submitted;
                }
            },
            None => {},
        }
        self.submissions.push(
            Submission::Execute { queue, wait_semaphores, command_buffers, signal_semaphores, fence },
        );
        proof {
            assert forall|i: int| 0 <= i < old(self).fences@.len() implies fence_status_le(
                old(self).fences@[i],
                self.fences@[i],
            ) by {}
        }
        Ok(())
    }

    /// Hands a present batch to the driver.  On acceptance the submission is
    /// recorded.
    pub fn submit_present(
        &mut self,
        queue: QueueRef,
        wait_semaphores: Vec<u64>,
        images: Vec<(u64, u64)>,
    ) -> (r: Result<(), FutureError>)
        requires
            queue.device == old(self).id,
        ensures
            old(self).evolves_to(*final (self)),
            r is Err <==> old(self).next_refused(),
            r matches Err(e) ==> e == FutureError::SubmitRefused,
            r is Err ==> final (self).submissions@ == old(self).submissions@,
            r is Ok ==> final (self).submissions@ == old(self).submissions@.push(
                Submission::Present { queue, wait_semaphores, images },
            ),
            final (self).fences@ == old(self).fences@,
            final (self).id == old(self).id,
            final (self).semaphore_count == old(self).semaphore_count,
            final (self).fail_plan@ == if old(self).fail_plan@.len() > 0 {
                old(self).fail_plan@.drop_first()
            } else {
                old(self).fail_plan@
            },
    {
        let refused = self.next_attempt();
        proof {
            lemma_plan_consumed(old(self).fail_plan@, self.fail_plan@);
            assert forall|i: int| 0 <= i < old(self).fences@.len() implies fence_status_le(
                old(self).fences@[i],
                self.fences@[i],
            ) by {}
        }
        if refused {
            return Err(FutureError::SubmitRefused);
        }
        self.submissions.push(Submission::Present { queue, wait_semaphores, images });
        Ok(())
    }

    /// Host-side wait on a fence with the generous ceiling: observes the
    /// signal of any fence the device has accepted work for, and fails only
    /// for a fence never attached to an accepted submission.
    pub fn wait_fence(&mut self, fence: u64) -> (r: Result<(), FutureError>)
        requires
            (fence as int) < old(self).fences@.len(),
        ensures
            old(self).evolves_to(*final (self)),
            r is Ok <==> !(old(self).fences@[fence as int] is Unsubmitted),
            r matches Err(e) ==> e == FutureError::FenceWaitFailed,
            r is Ok ==> final (self).fences@ == old(self).fences@.update(
                fence as int,
                FenceStatus::Signalled,
            ),
            r is Err ==> final (self).fences@ == old(self).fences@,
            final (self).id == old(self).id,
            final (self).submissions@ == old(self).submissions@,
            final (self).semaphore_count == old(self).semaphore_count,
            final (self).fail_plan@ == old(self).fail_plan@,
    {
        proof {
            assert(old(self).fail_plan@.subrange(0, old(self).fail_plan@.len() as int)
                == old(self).fail_plan@);
            assert(self.fences.len() <= usize::MAX);
        }
        if self.fences[fence as usize] == FenceStatus::Unsubmitted {
            proof {
                assert forall|i: int| 0 <= i < old(self).fences@.len() implies fence_status_le(
                    old(self).fences@[i],
                    self.fences@[i],
                ) by {}
            }
            Err(FutureError::FenceWaitFailed)
        } else {
            self.fences[fence as usize] = FenceStatus::Signalled;
            proof {
                assert forall|i: int| 0 <= i < old(self).fences@.len() implies fence_status_le(
                    old(self).fences@[i],
                    self.fences@[i],
                ) by {}
            }
            Ok(())
        }
    }

    /// Zero-timeout probe: whether the fence has been observed signalled.
    pub fn probe_fence(&self, fence: u64) -> (b: bool)
        requires
            (fence as int) < self.fences@.len(),
        ensures
            b == (self.fences@[fence as int] is Signalled),
    {
        proof {
            assert(self.fences.len() <= usize::MAX);
        }
        self.fences[fence as usize] == FenceStatus::Signalled
    }

    /// The device finishes all accepted work: every submitted fence becomes
    /// signalled.
    pub fn complete_all(&mut self)
        ensures
            old(self).evolves_to(*final (self)),
            final (self).fences@.len() == old(self).fences@.len(),
            forall|i: int|
                0 <= i < old(self).fences@.len() ==> final (self).fences@[i] == (
                if old(self).fences@[i] is Submitted {
                    FenceStatus::Signalled
                } else {
                    old(self).fences@[i]
                }),
            final (self).id == old(self).id,
            final (self).submissions@ == old(self).submissions@,
            final (self).semaphore_count == old(self).semaphore_count,
            final (self).fail_plan@ == old(self).fail_plan@,
    {
        proof {
            assert(old(self).fail_plan@.subrange(0, old(self).fail_plan@.len() as int)
                == old(self).fail_plan@);
        }
        let n = self.fences.len();
        let mut i: usize = 0;
        while i < n
            invariant
                n == self.fences@.len(),
                i <= n,
                self.id == old(self).id,
                self.submissions@ == old(self).submissions@,
                self.semaphore_count == old(self).semaphore_count,
                self.fail_plan@ == old(self).fail_plan@,
                forall|k: int|
                    0 <= k < i ==> self.fences@[k] == (if old(self).fences@[k] is Submitted {
                        FenceStatus::Signalled
                    } else {
                        old(self).fences@[k]
                    }),
                forall|k: int| i <= k < n ==> self.fences@[k] == old(self).fences@[k],
            decreases n - i,
        {
            if self.fences[i] == FenceStatus::Submitted {
                self.fences[i] = FenceStatus::Signalled;
            }
            i = i + 1;
        }
        proof {
            assert forall|k: int| 0 <= k < old(self).fences@.len() implies fence_status_le(
                old(self).fences@[k],
                self.fences@[k],
            ) by {}
        }
    }
}

/// The device did not change at all: every field an operation could touch
/// is the same.
pub open spec fn device_unchanged(a: Device, b: Device) -> bool {
    &&& b.id == a.id
    &&& b.submissions@ == a.submissions@
    &&& b.fences@ == a.fences@
    &&& b.semaphore_count == a.semaphore_count
    &&& b.fail_plan@ == a.fail_plan@
}

/// A device evolves to itself.
pub proof fn lemma_evolves_refl(d: Device)
    ensures
        d.evolves_to(d),
{
    assert(d.fail_plan@.subrange(0, d.fail_plan@.len() as int) == d.fail_plan@);
}

/// An unchanged device has evolved (by doing nothing).
pub proof fn lemma_unchanged_evolves(a: Device, b: Device)
    requires
        device_unchanged(a, b),
    ensures
        a.evolves_to(b),
{
    assert(a.fail_plan@.subrange(0, a.fail_plan@.len() as int) == a.fail_plan@);
}

/// Evolution of a device composes.
pub proof fn lemma_evolves_trans(a: Device, b: Device, c: Device)
    requires
        a.evolves_to(b),
        b.evolves_to(c),
    ensures
        a.evolves_to(c),
{
    assert(a.submissions@.is_prefix_of(c.submissions@)) by {
        assert(forall|i: int|
            0 <= i < a.submissions@.len() ==> c.submissions@[i] == a.submissions@[i]);
    }
    assert forall|i: int| 0 <= i < a.fences@.len() implies fence_status_le(
        a.fences@[i],
        c.fences@[i],
    ) by {
        assert(fence_status_le(a.fences@[i], b.fences@[i]));
        assert(fence_status_le(b.fences@[i], c.fences@[i]));
    }
    assert(c.fail_plan@ == a.fail_plan@.subrange(
        a.fail_plan@.len() - c.fail_plan@.len(),
        a.fail_plan@.len() as int,
    )) by {
        assert forall|i: int| 0 <= i < c.fail_plan@.len() implies c.fail_plan@[i] == a.fail_plan@[
            a.fail_plan@.len() - c.fail_plan@.len() + i
        ] by {
            assert(c.fail_plan@[i] == b.fail_plan@[b.fail_plan@.len() - c.fail_plan@.len() + i]);
        }
        assert(c.fail_plan@ =~= a.fail_plan@.subrange(
            a.fail_plan@.len() - c.fail_plan@.len(),
            a.fail_plan@.len() as int,
        ));
    }
}

/// A plan that refuses nothing keeps refusing nothing as the device evolves.
pub proof fn lemma_all_clear_evolves(a: Device, b: Device)
    requires
        a.all_clear(),
        a.evolves_to(b),
    ensures
        b.all_clear(),
{
    assert forall|i: int| 0 <= i < b.fail_plan@.len() implies !b.fail_plan@[i] by {
        assert(b.fail_plan@[i] == a.fail_plan@[a.fail_plan@.len() - b.fail_plan@.len() + i]);
    }
}

/// Consuming the front of the failure plan is one way a plan evolves.
proof fn lemma_plan_consumed(a: Seq<bool>, b: Seq<bool>)
    requires
        b == if a.len() > 0 {
            a.drop_first()
        } else {
            a
        },
    ensures
        b.len() <= a.len(),
        b == a.subrange(a.len() - b.len(), a.len() as int),
{
    if a.len() > 0 {
        assert(a.drop_first() == a.subrange(1, a.len() as int));
    } else {
        assert(a.subrange(0, 0) == a);
    }
}

} // verus!
