//! The deferred execution bridge: how long-running work leaves the
//! synchronous call path and how its outcome comes back.
//!
//! A handler that needs a download or a decode registers the work here and
//! returns at once; the guest's success only means the operation was
//! accepted. The work runs on an external execution pool with no world
//! access of any kind. When it finishes — well or badly — the pool reports
//! the outcome, which appends exactly one callback to a FIFO queue. The
//! queue is drained at synchronization points between guest call batches,
//! each callback applied under the host's exclusive world access, in
//! completion order: callbacks never overtake one another once queued,
//! while operations completing at different speeds may queue in any
//! relative order.
//!
//! Unloading a module neither aborts its in-flight operations nor removes
//! their queued callbacks: a callback that still arrives runs once and is
//! applied as a no-op against the absent module state.

use vstd::prelude::*;

use crate::error::HostError;

verus! {

/// The long-running work a handler can hand off.
#[derive(Clone, Debug)]
pub enum LongRunning {
    /// Download and decode an audio track, then start playing it.
    AudioTrackLoad { url: String, looping: bool, volume_bits: u32, uid: u32 },
    /// Resolve a track URL, then stop its playbacks.
    AudioStop { url: String },
    /// Resolve a track URL, then retune its playbacks.
    AudioUpdateVolume { url: String, volume_bits: u32 },
    /// Stop the playback started under a uid.
    AudioStopById { uid: u32 },
}

/// How a long-running operation ended.
#[derive(Clone, Copy, Debug, PartialEq, Eq, Structural)]
pub enum Outcome {
    Success,
    Failure,
}

/// An accepted operation whose outcome has not come back yet.
#[derive(Clone, Debug)]
pub struct PendingOp {
    pub op: u64,
    pub module: u64,
    pub work: LongRunning,
}

/// One completed operation's outcome, waiting at a synchronization point.
#[derive(Clone, Debug)]
pub struct Callback {
    pub op: u64,
    pub module: u64,
    pub work: LongRunning,
    pub outcome: Outcome,
}

/// The bridge state: an id source, the in-flight operations, and the FIFO
/// callback queue.
pub struct DeferredBridge {
    /// The id the next accepted operation gets; ids are never reused.
    pub next_op: u64,
    pub pending: Vec<PendingOp>,
    pub queue: Vec<Callback>,
}

impl DeferredBridge {
    /// In-flight operations carry distinct ids, all below the id source.
    pub open spec fn wf(self) -> bool {
        &&& forall|i: int|
            0 <= i < self.pending@.len() ==> (#[trigger] self.pending@[i]).op < self.next_op
        &&& forall|i: int, j: int|
            0 <= i < self.pending@.len() && 0 <= j < self.pending@.len() && i != j ==> (
            #[trigger] self.pending@[i]).op != (#[trigger] self.pending@[j]).op
    }

    /// An idle bridge.
    pub fn new() -> (r: DeferredBridge)
        ensures
            r.wf(),
            r.next_op == 0,
            r.pending@.len() == 0,
            r.queue@.len() == 0,
    {
        DeferredBridge { next_op: 0, pending: Vec::new(), queue: Vec::new() }
    }

    /// Accept a long-running operation: record it in flight and return its
    /// id. Nothing is queued yet — acceptance is not completion.
    pub fn begin(&mut self, module: u64, work: LongRunning) -> (op: u64)
        requires
            old(self).wf(),
            old(self).next_op < u64::MAX,
        ensures
            final(self).wf(),
            op == old(self).next_op,
            final(self).next_op == old(self).next_op + 1,
            final(self).pending@ == old(self).pending@.push(
                PendingOp { op, module, work },
            ),
            final(self).queue@ == old(self).queue@,
    {
        let op = self.next_op;
        self.next_op = self.next_op + 1;
        self.pending.push(PendingOp { op, module, work });
        op
    }

    /// Find an in-flight operation by id.
    fn find_pending(&self, op: u64) -> (r: Option<usize>)
        ensures
            match r {
                Some(i) => i < self.pending@.len() && self.pending@[i as int].op == op,
                None => forall|i: int|
                    0 <= i < self.pending@.len() ==> (#[trigger] self.pending@[i]).op != op,
            },
    {
        let mut i: usize = 0;
        while i < self.pending.len()
            invariant
                i <= self.pending@.len(),
                forall|j: int| 0 <= j < i ==> (#[trigger] self.pending@[j]).op != op,
            decreases self.pending@.len() - i,
        {
            if self.pending[i].op == op {
                return Some(i);
            }
            i = i + 1;
        }
        None
    }

    /// The external pool reports that operation `op` finished with
    /// `outcome`: the operation leaves the in-flight set and exactly one
    /// callback joins the back of the queue. An id that is not in flight
    /// (never issued, or already completed) is refused and changes
    /// nothing.
    pub fn complete(&mut self, op: u64, outcome: Outcome) -> (r: Result<(), HostError>)
        requires
            old(self).wf(),
        ensures
            final(self).wf(),
            final(self).next_op == old(self).next_op,
            r is Ok <==> exists|i: int|
                0 <= i < old(self).pending@.len() && (#[trigger] old(self).pending@[i]).op == op,
            r matches Err(e) ==> e == HostError::NotFound && final(self).pending@ == old(
                self,
            ).pending@ && final(self).queue@ == old(self).queue@,
            r is Ok ==> exists|i: int|
                {
                    &&& 0 <= i < old(self).pending@.len()
                    &&& (#[trigger] old(self).pending@[i]).op == op
                    &&& final(self).pending@ == old(self).pending@.remove(i)
                    &&& final(self).queue@ == old(self).queue@.push(
                        Callback {
                            op,
                            module: old(self).pending@[i].module,
                            work: old(self).pending@[i].work,
                            outcome,
                        },
                    )
                },
            old(self).queue@.is_prefix_of(final(self).queue@),
    {
        let i = match self.find_pending(op) {
            Some(i) => i,
            None => {
                return Err(HostError::NotFound);
            },
        };
        let entry = self.pending.remove(i);
        self.queue.push(
            Callback { op: entry.op, module: entry.module, work: entry.work, outcome },
        );
        proof {
            assert(old(self).pending@[i as int].op == op);
            assert(final(self).pending@ == old(self).pending@.remove(i as int));
        }
        Ok(())
    }

    /// Take the callback that has waited longest, if any: the queue drains
    /// strictly in completion order.
    pub fn pop_next(&mut self) -> (r: Option<Callback>)
        requires
            old(self).wf(),
        ensures
            final(self).wf(),
            final(self).next_op == old(self).next_op,
            final(self).pending@ == old(self).pending@,
            old(self).queue@.len() == 0 ==> r is None && *final(self) == *old(self),
            old(self).queue@.len() > 0 ==> match r {
                Some(cb) => cb == old(self).queue@[0] && final(self).queue@ == old(
                    self,
                ).queue@.subrange(1, old(self).queue@.len() as int),
                None => false,
            },
    {
        if self.queue.len() == 0 {
            return None;
        }
        let cb = self.queue.remove(0);
        Some(cb)
    }

    /// Draining is first-in, first-out: after `k` drains the front of the
    /// queue is the callback completed `k`-th, so callbacks run in exactly
    /// the order their operations completed — two callbacks never swap
    /// places once queued, while two operations may complete, and so
    /// queue, in either order.
    pub proof fn lemma_fifo(q: Seq<Callback>, k: int)
        requires
            0 <= k < q.len(),
        ensures
            q.skip(k).len() > 0,
            q.skip(k)[0] == q[k],
            q.skip(k).skip(1) == q.skip(k + 1),
    {
        assert(q.skip(k).skip(1) =~= q.skip(k + 1));
    }
}

} // verus!
