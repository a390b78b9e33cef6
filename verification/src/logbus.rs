//! The per-build log fan-out bus.
//!
//! One bus exists per active build.  Every record the executor emits is kept
//! in `history`, in emission order, and offered to every subscriber through
//! a bounded buffer: a subscriber that cannot keep up loses records but
//! never sees them reordered.  A subscriber attaching late first receives
//! the whole history as a replay.

use vstd::prelude::*;
use crate::models::{clone_logs, BuildLog};
use vstd::pervasive::VecAdditionalExecFns;

verus! {

/// How many records a subscriber's buffer holds before the bus starts
/// dropping records for it.
pub const SUBSCRIBER_BUFFER: usize = 100;

/// `a` is a subsequence of `b`: `a` can be obtained from `b` by deleting
/// records, never by reordering them.
pub open spec fn is_subseq<T>(a: Seq<T>, b: Seq<T>) -> bool
    decreases a.len() + b.len(),
{
    if a.len() == 0 {
        true
    } else if b.len() == 0 {
        false
    } else {
        (a.last() == b.last() && is_subseq(a.drop_last(), b.drop_last())) || is_subseq(
            a,
            b.drop_last(),
        )
    }
}

/// Every sequence is a subsequence of itself.
pub proof fn lemma_subseq_refl<T>(a: Seq<T>)
    ensures
        is_subseq(a, a),
    decreases a.len(),
{
    if a.len() > 0 {
        lemma_subseq_refl(a.drop_last());
    }
}

/// Extending the right side keeps a subsequence a subsequence.
pub proof fn lemma_subseq_push_right<T>(a: Seq<T>, b: Seq<T>, x: T)
    requires
        is_subseq(a, b),
    ensures
        is_subseq(a, b.push(x)),
{
    assert(b.push(x).drop_last() =~= b);
}

/// Appending the same record to both sides keeps a subsequence.
pub proof fn lemma_subseq_push_both<T>(a: Seq<T>, b: Seq<T>, x: T)
    requires
        is_subseq(a, b),
    ensures
        is_subseq(a.push(x), b.push(x)),
{
    assert(a.push(x).drop_last() =~= a);
    assert(b.push(x).drop_last() =~= b);
    assert(a.push(x).last() == b.push(x).last());
}

/// One attached log-stream client.
#[derive(Debug)]
pub struct Subscriber {
    /// Records already handed to the client, oldest first.
    pub delivered: Vec<BuildLog>,
    /// Records waiting in the bounded buffer.
    pub queued: Vec<BuildLog>,
}

impl Subscriber {
    /// Everything this subscriber has received or is about to receive,
    /// in order.
    pub open spec fn received(self) -> Seq<BuildLog> {
        self.delivered@ + self.queued@
    }
}

/// Delivery of one record to one subscriber: buffered when there is room,
/// dropped when there is not; `delivered` is untouched either way.
pub open spec fn offered(pre: Subscriber, post: Subscriber, rec: BuildLog) -> bool {
    &&& post.delivered@ == pre.delivered@
    &&& post.queued@ == if pre.queued@.len() < SUBSCRIBER_BUFFER {
        pre.queued@.push(rec)
    } else {
        pre.queued@
    }
}

/// The broadcast channel of one build.
#[derive(Debug)]
pub struct LogBus {
    /// Every record published, in emission order; also the replay source.
    pub history: Vec<BuildLog>,
    pub subscribers: Vec<Subscriber>,
    /// Whether the terminal shutdown marker has been published.
    pub shutdown: bool,
}

impl LogBus {
    /// Every subscriber's record stream is a subsequence of the emission
    /// order, and no buffer exceeds its bound.
    pub open spec fn wf(self) -> bool {
        forall|i: int|
            0 <= i < self.subscribers@.len() ==> is_subseq(
                (#[trigger] self.subscribers@[i]).received(),
                self.history@,
            ) && self.subscribers@[i].queued@.len() <= SUBSCRIBER_BUFFER
    }

    /// A bus with no history and no subscribers.
    pub fn new() -> (r: LogBus)
        ensures
            r.history@.len() == 0,
            r.subscribers@.len() == 0,
            !r.shutdown,
            r.wf(),
    {
        LogBus { history: Vec::new(), subscribers: Vec::new(), shutdown: false }
    }

    /// Attach a client: it immediately receives the whole history as its
    /// replay, and streams live records from now on.  Returns its handle.
    pub fn attach(&mut self) -> (idx: usize)
        requires
            old(self).wf(),
        ensures
            idx == old(self).subscribers@.len(),
            final(self).subscribers@.len() == old(self).subscribers@.len() + 1,
            forall|i: int|
                0 <= i < old(self).subscribers@.len() ==> final(self).subscribers@[i]
                    == #[trigger] old(self).subscribers@[i],
            final(self).subscribers@.last().delivered@ == old(self).history@,
            final(self).subscribers@.last().queued@.len() == 0,
            final(self).history == old(self).history,
            final(self).shutdown == old(self).shutdown,
            final(self).wf(),
    {
        let replay = clone_logs(&self.history);
        let idx = self.subscribers.len();
        self.subscribers.push(Subscriber { delivered: replay, queued: Vec::new() });
        proof {
            let sub = final(self).subscribers@.last();
            assert(sub.received() =~= final(self).history@);
            lemma_subseq_refl(final(self).history@);
            assert(forall|i: int|
                0 <= i < old(self).subscribers@.len() ==> final(self).subscribers@[i] == old(
                    self,
                ).subscribers@[i]);
        }
        idx
    }

    /// Publish one record: it is appended to the history and offered to
    /// every subscriber's buffer.
    pub fn publish(&mut self, rec: BuildLog)
        requires
            old(self).wf(),
        ensures
            final(self).history@ == old(self).history@.push(rec),
            final(self).subscribers@.len() == old(self).subscribers@.len(),
            forall|i: int|
                0 <= i < old(self).subscribers@.len() ==> offered(
                    #[trigger] old(self).subscribers@[i],
                    final(self).subscribers@[i],
                    rec,
                ),
            final(self).shutdown == old(self).shutdown,
            final(self).wf(),
    {
        self.history.push(rec.clone());
        let ghost pre_subs = self.subscribers@;
        let mut pending: Vec<Subscriber> = Vec::new();
        core::mem::swap(&mut pending, &mut self.subscribers);
        let n = pending.len();
        let mut i: usize = 0;
        proof {
            assert(pending@.skip(0) =~= pending@);
        }
        while i < n
            invariant
                i <= n,
                n == pre_subs.len(),
                pending@.len() == n,
                forall|k: int| i <= k < n ==> pending@[k] == #[trigger] pre_subs[k],
                self.subscribers@.len() == i,
                self.history@ == old(self).history@.push(rec),
                self.shutdown == old(self).shutdown,
                pre_subs == old(self).subscribers@,
                forall|j: int|
                    0 <= j < i ==> offered(
                        #[trigger] pre_subs[j],
                        self.subscribers@[j],
                        rec,
                    ),
            decreases n - i,
        {
            let mut sub = Subscriber { delivered: Vec::new(), queued: Vec::new() };
            pending.set_and_swap(i, &mut sub);
            if sub.queued.len() < SUBSCRIBER_BUFFER {
                sub.queued.push(rec.clone());
            }
            self.subscribers.push(sub);
            i = i + 1;
        }
        proof {
            assert(final(self).wf()) by {
                assert(forall|j: int|
                    0 <= j < final(self).subscribers@.len() ==> is_subseq(
                        (#[trigger] final(self).subscribers@[j]).received(),
                        final(self).history@,
                    ) && final(self).subscribers@[j].queued@.len() <= SUBSCRIBER_BUFFER) by {
                    assert forall|j: int|
                        0 <= j < final(self).subscribers@.len() implies is_subseq(
                        (#[trigger] final(self).subscribers@[j]).received(),
                        final(self).history@,
                    ) && final(self).subscribers@[j].queued@.len() <= SUBSCRIBER_BUFFER by {
                        let pre = pre_subs[j];
                        let post = final(self).subscribers@[j];
                        assert(is_subseq(pre.received(), old(self).history@));
                        if pre.queued@.len() < SUBSCRIBER_BUFFER {
                            assert(post.received() =~= pre.received().push(rec));
                            lemma_subseq_push_both(pre.received(), old(self).history@, rec);
                        } else {
                            assert(post.received() =~= pre.received());
                            lemma_subseq_push_right(pre.received(), old(self).history@, rec);
                        }
                    }
                }
            }
        }
    }

    /// Hand a subscriber everything waiting in its buffer, in order.
    pub fn poll(&mut self, idx: usize) -> (batch: Vec<BuildLog>)
        requires
            old(self).wf(),
            idx < old(self).subscribers@.len(),
        ensures
            batch@ == old(self).subscribers@[idx as int].queued@,
            final(self).subscribers@.len() == old(self).subscribers@.len(),
            final(self).subscribers@[idx as int].delivered@
                == old(self).subscribers@[idx as int].delivered@
                + old(self).subscribers@[idx as int].queued@,
            final(self).subscribers@[idx as int].queued@.len() == 0,
            forall|i: int|
                0 <= i < old(self).subscribers@.len() && i != idx
                    ==> final(self).subscribers@[i] == #[trigger] old(self).subscribers@[i],
            final(self).history == old(self).history,
            final(self).shutdown == old(self).shutdown,
            final(self).wf(),
    {
        let mut sub = Subscriber { delivered: Vec::new(), queued: Vec::new() };
        self.subscribers.set_and_swap(idx, &mut sub);
        let batch = clone_logs(&sub.queued);
        let mut moved = sub.queued;
        sub.queued = Vec::new();
        sub.delivered.append(&mut moved);
        self.subscribers.set_and_swap(idx, &mut sub);
        proof {
            let post = final(self).subscribers@[idx as int];
            let pre = old(self).subscribers@[idx as int];
            assert(post.received() =~= pre.received());
            assert(forall|i: int|
                0 <= i < final(self).subscribers@.len() && i != idx
                    ==> final(self).subscribers@[i] == old(self).subscribers@[i]);
            assert(final(self).wf()) by {
                assert forall|i: int| 0 <= i < final(self).subscribers@.len() implies is_subseq(
                    (#[trigger] final(self).subscribers@[i]).received(),
                    final(self).history@,
                ) && final(self).subscribers@[i].queued@.len() <= SUBSCRIBER_BUFFER by {
                    if i == idx {
                        assert(final(self).subscribers@[i].received() =~= old(
                            self,
                        ).subscribers@[i].received());
                    }
                    assert(is_subseq(old(self).subscribers@[i].received(), old(self).history@));
                }
            }
        }
        batch
    }

    /// Publish the terminal marker: subscribers are to be closed after
    /// draining what remains.
    pub fn emit_shutdown(&mut self)
        requires
            old(self).wf(),
        ensures
            final(self).shutdown,
            final(self).history == old(self).history,
            final(self).subscribers == old(self).subscribers,
            final(self).wf(),
    {
        self.shutdown = true;
    }
}

/// What a subscriber has received is a subsequence of what the executor
/// emitted, on every well-formed bus.
pub proof fn lemma_subscriber_sees_subsequence(bus: LogBus, i: int)
    requires
        bus.wf(),
        0 <= i < bus.subscribers@.len(),
    ensures
        is_subseq(bus.subscribers@[i].received(), bus.history@),
{
}

} // verus!
