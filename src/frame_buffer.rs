//! A bounded, lossy channel of frame payloads with latest-wins reads.
use vstd::prelude::*;

verus! {

/// The frame that a consumer whose next unseen index is `cursor` reads from the
/// publish history `hist`: the newest frame, if the consumer has not seen it.
pub open spec fn latest_unseen(hist: Seq<Seq<u8>>, cursor: nat) -> Option<Seq<u8>> {
    if hist.len() > 0 && cursor < hist.len() {
        Some(hist.last())
    } else {
        None
    }
}

/// The frames that a buffer of `capacity` slots still holds after the history `hist`.
pub open spec fn retained(hist: Seq<Seq<u8>>, capacity: nat) -> Seq<Seq<u8>> {
    if hist.len() <= capacity {
        hist
    } else {
        hist.subrange(hist.len() - capacity, hist.len() as int)
    }
}

/// After any number of publishes with no read in between, a consumer that had
/// seen nothing past the old history reads the most recently published frame,
/// and that frame is still held by a buffer of any positive capacity: a read
/// never yields an evicted frame.
pub proof fn lemma_read_after_publishes(
    hist: Seq<Seq<u8>>,
    frames: Seq<Seq<u8>>,
    cursor: nat,
    capacity: nat,
)
    requires
        cursor <= hist.len(),
        frames.len() > 0,
        capacity > 0,
    ensures
        latest_unseen(hist + frames, cursor) == Some(frames.last()),
        retained(hist + frames, capacity).len() > 0,
        retained(hist + frames, capacity).last() == frames.last(),
{
    let h = hist + frames;
    assert(h.last() == frames.last());
    let r = retained(h, capacity);
    if h.len() > capacity {
        assert(r.last() == h[h.len() - 1]);
    }
}

/// A consumer never sees a frame twice nor out of order: a read hands out the
/// newest frame, at the last index of the history, and moves the cursor past
/// it; a later read, after further publishes `more`, yields a frame only if
/// something was published since, and then one at a strictly later index.
pub proof fn lemma_reads_follow_publish_order(hist: Seq<Seq<u8>>, more: Seq<Seq<u8>>, cursor: nat)
    requires
        latest_unseen(hist, cursor) is Some,
    ensures
        hist.len() > 0,
        cursor <= hist.len() - 1,
        latest_unseen(hist, cursor) == Some(hist[hist.len() - 1]),
        latest_unseen(hist + more, hist.len()) is Some <==> more.len() > 0,
        more.len() > 0 ==> latest_unseen(hist + more, hist.len()) == Some(
            (hist + more)[(hist + more).len() - 1],
        ) && (hist + more).len() - 1 > hist.len() - 1,
{
}

/// One step that a consumer may see happen to the buffer: a publish, or a
/// read of its own.
pub ghost enum BufferOp {
    Publish(Seq<u8>),
    Read,
}

/// The publish indices of the frames that a consumer at `cursor` observes
/// while the operations `ops` happen to the history `hist`, in the order it
/// observes them.
pub open spec fn observed(hist: Seq<Seq<u8>>, cursor: nat, ops: Seq<BufferOp>) -> Seq<int>
    decreases ops.len(),
{
    if ops.len() == 0 {
        Seq::empty()
    } else {
        match ops[0] {
            BufferOp::Publish(f) => observed(hist.push(f), cursor, ops.drop_first()),
            BufferOp::Read => if latest_unseen(hist, cursor) is Some {
                seq![hist.len() - 1].add(observed(hist, hist.len(), ops.drop_first()))
            } else {
                observed(hist, cursor, ops.drop_first())
            },
        }
    }
}

proof fn lemma_observed_at_least(hist: Seq<Seq<u8>>, cursor: nat, ops: Seq<BufferOp>)
    requires
        cursor <= hist.len(),
    ensures
        forall|k: int|
            0 <= k < observed(hist, cursor, ops).len() ==> cursor <= #[trigger] observed(
                hist,
                cursor,
                ops,
            )[k],
    decreases ops.len(),
{
    if ops.len() > 0 {
        let rest = ops.drop_first();
        match ops[0] {
            BufferOp::Publish(f) => {
                assert(observed(hist, cursor, ops) == observed(hist.push(f), cursor, rest));
                lemma_observed_at_least(hist.push(f), cursor, rest);
            },
            BufferOp::Read => {
                if latest_unseen(hist, cursor) is Some {
                    lemma_observed_at_least(hist, hist.len(), rest);
                    let tail = observed(hist, hist.len(), rest);
                    let all = observed(hist, cursor, ops);
                    assert(all == seq![hist.len() - 1].add(tail));
                    assert forall|k: int| 0 <= k < all.len() implies cursor <= #[trigger] all[k] by {
                        if k > 0 {
                            assert(all[k] == tail[k - 1]);
                        }
                    }
                } else {
                    assert(observed(hist, cursor, ops) == observed(hist, cursor, rest));
                    lemma_observed_at_least(hist, cursor, rest);
                }
            },
        }
    }
}

/// Whatever publishes and reads interleave, a consumer observes frames in
/// publish order with possible gaps: the indices it observes strictly
/// increase, so no frame comes twice or out of order, and none precedes its
/// starting position.
pub proof fn lemma_observed_in_publish_order(hist: Seq<Seq<u8>>, cursor: nat, ops: Seq<BufferOp>)
    requires
        cursor <= hist.len(),
    ensures
        forall|i: int, j: int|
            0 <= i < j < observed(hist, cursor, ops).len() ==> #[trigger] observed(hist, cursor, ops)[i]
                < #[trigger] observed(hist, cursor, ops)[j],
        forall|k: int|
            0 <= k < observed(hist, cursor, ops).len() ==> cursor <= #[trigger] observed(
                hist,
                cursor,
                ops,
            )[k],
    decreases ops.len(),
{
    lemma_observed_at_least(hist, cursor, ops);
    if ops.len() > 0 {
        let rest = ops.drop_first();
        match ops[0] {
            BufferOp::Publish(f) => {
                assert(observed(hist, cursor, ops) == observed(hist.push(f), cursor, rest));
                lemma_observed_in_publish_order(hist.push(f), cursor, rest);
            },
            BufferOp::Read => {
                if latest_unseen(hist, cursor) is Some {
                    lemma_observed_in_publish_order(hist, hist.len(), rest);
                    lemma_observed_at_least(hist, hist.len(), rest);
                    let tail = observed(hist, hist.len(), rest);
                    let all = observed(hist, cursor, ops);
                    assert(all == seq![hist.len() - 1].add(tail));
                    assert forall|i: int, j: int| 0 <= i < j < all.len() implies #[trigger] all[i]
                        < #[trigger] all[j] by {
                        if i == 0 {
                            assert(all[j] == tail[j - 1]);
                        } else {
                            assert(all[i] == tail[i - 1]);
                            assert(all[j] == tail[j - 1]);
                        }
                    }
                } else {
                    assert(observed(hist, cursor, ops) == observed(hist, cursor, rest));
                    lemma_observed_in_publish_order(hist, cursor, rest);
                }
            },
        }
    }
}

/// A consumer's position: the index, in publish order, of the first frame it
/// has not yet seen.
pub struct Subscriber {
    next_index: u64,
}

impl View for Subscriber {
    type V = nat;

    closed spec fn view(&self) -> nat {
        self.next_index as nat
    }
}

/// A fixed number of slots holding the most recent frames.
///
/// Publishing never blocks and never fails: when the slots are full the oldest
/// frame is evicted. A read hands a consumer the newest frame it has not seen.
pub struct FrameBuffer {
    capacity: usize,
    slots: Vec<Vec<u8>>,
    published: u64,
    history: Ghost<Seq<Seq<u8>>>,
}

impl FrameBuffer {
    /// Every frame published so far, oldest first.
    pub closed spec fn history(&self) -> Seq<Seq<u8>> {
        self.history@
    }

    /// The number of slots.
    pub closed spec fn capacity_spec(&self) -> nat {
        self.capacity as nat
    }

    /// The slots hold exactly the retained tail of the history.
    pub closed spec fn wf(&self) -> bool {
        &&& self.capacity > 0
        &&& self.published as nat == self.history@.len()
        &&& self.slots@.len() == retained(self.history@, self.capacity as nat).len()
        &&& forall|i: int|
            0 <= i < self.slots@.len() ==> #[trigger] self.slots@[i]@ == retained(
                self.history@,
                self.capacity as nat,
            )[i]
    }

    /// An empty buffer of `capacity` slots.
    pub fn new(capacity: usize) -> (r: FrameBuffer)
        requires
            capacity > 0,
        ensures
            r.wf(),
            r.history() == Seq::<Seq<u8>>::empty(),
            r.capacity_spec() == capacity,
    {
        FrameBuffer { capacity, slots: Vec::new(), published: 0, history: Ghost(Seq::empty()) }
    }

    /// The number of slots.
    pub fn capacity(&self) -> (r: usize)
        ensures
            r == self.capacity_spec(),
            self.wf() ==> r > 0,
    {
        self.capacity
    }

    /// How many frames have been published.
    pub fn published_count(&self) -> (r: u64)
        requires
            self.wf(),
        ensures
            r == self.history().len(),
    {
        self.published
    }

    /// A well-formed buffer has at least one slot, so a publish into a full
    /// buffer evicts only its oldest frame.
    pub proof fn lemma_capacity_positive(&self)
        requires
            self.wf(),
        ensures
            self.capacity_spec() > 0,
    {
    }

    /// The frames currently held, oldest first.
    pub open spec fn held(&self) -> Seq<Seq<u8>> {
        retained(self.history(), self.capacity_spec())
    }

    /// Admits `frame` as the newest entry, evicting the oldest when the slots are full.
    pub fn publish(&mut self, frame: Vec<u8>)
        requires
            old(self).wf(),
            old(self).history().len() < u64::MAX,
        ensures
            final(self).wf(),
            final(self).history() == old(self).history().push(frame@),
            final(self).capacity_spec() == old(self).capacity_spec(),
    {
        let ghost old_hist = self.history@;
        let ghost cap = self.capacity as nat;
        if self.slots.len() >= self.capacity {
            self.slots.remove(0);
        }
        self.slots.push(frame);
        self.published = self.published + 1;
        self.history = Ghost(old_hist.push(frame@));
        proof {
            let new_hist = old_hist.push(frame@);
            let r_old = retained(old_hist, cap);
            let r_new = retained(new_hist, cap);
            if old_hist.len() < cap {
                assert(r_new =~= r_old.push(frame@));
            } else {
                assert(r_new =~= r_old.drop_first().push(frame@));
            }
            assert forall|i: int| 0 <= i < self.slots@.len() implies #[trigger] self.slots@[i]@
                == r_new[i] by {}
        }
    }

    /// A consumer that starts with the next frame to be published.
    pub fn subscribe(&self) -> (r: Subscriber)
        requires
            self.wf(),
        ensures
            r@ == self.history().len(),
    {
        Subscriber { next_index: self.published }
    }

    /// The newest frame, if `sub` has not seen it yet; `sub` then moves past it.
    /// Older unseen frames are skipped for good.
    pub fn next(&self, sub: &mut Subscriber) -> (r: Option<Vec<u8>>)
        requires
            self.wf(),
        ensures
            r matches Some(f) ==> latest_unseen(self.history(), old(sub)@) == Some(f@),
            r is None ==> latest_unseen(self.history(), old(sub)@) is None,
            r is Some ==> final(sub)@ == self.history().len(),
            r is None ==> final(sub)@ == old(sub)@,
    {
        if self.published > 0 && sub.next_index < self.published {
            let last = self.slots.len() - 1;
            assert(self.slots@[last as int]@ == self.history@.last());
            let f = self.slots[last].clone();
            assert(f@ =~= self.slots@[last as int]@);
            sub.next_index = self.published;
            Some(f)
        } else {
            None
        }
    }
}

} // verus!
