use vstd::prelude::*;
use std::collections::VecDeque;
use crate::types::{MarketDataMessage, MessageView};

verus! {

/// What one read of a subscriber's buffer hands back.
pub enum Received {
    /// The oldest unread message.
    Message(MarketDataMessage),
    /// This many messages were dropped unread since the last read.
    Lagged(u64),
    /// Nothing unread.
    Empty,
    /// The handle is not (or no longer) subscribed.
    Closed,
}

/// A subscriber's buffer and dropped-message count after one more message:
/// appended, after the oldest was dropped if the buffer already held `cap`.
pub open spec fn offer(q: Seq<MessageView>, lag: nat, m: MessageView, cap: nat) -> (Seq<MessageView>, nat) {
    if q.len() < cap {
        (q.push(m), lag)
    } else {
        (q.drop_first().push(m), lag + 1)
    }
}

/// `offer` of each message of `ms`, in order.
pub open spec fn offer_all(q: Seq<MessageView>, lag: nat, ms: Seq<MessageView>, cap: nat) -> (Seq<MessageView>, nat)
    decreases ms.len(),
{
    if ms.len() == 0 {
        (q, lag)
    } else {
        let r = offer_all(q, lag, ms.drop_last(), cap);
        offer(r.0, r.1, ms.last(), cap)
    }
}

/// One producer, many subscribers, each reading at its own pace from a
/// buffer of at most `capacity` messages; a full buffer drops its oldest
/// message. Publishing never waits on a subscriber.
///
/// The latest `capacity` messages are kept once, in `window`; each
/// subscriber has the sequence number of the next message it reads.
pub struct Distributor {
    capacity: usize,
    window: VecDeque<MarketDataMessage>,
    published: u64,
    cursors: Vec<Option<u64>>,
    history: Ghost<Seq<MessageView>>,
}

impl Distributor {
    /// The most messages a subscriber's buffer holds.
    pub closed spec fn capacity_spec(&self) -> nat {
        self.capacity as nat
    }

    /// All messages published so far, oldest first.
    pub closed spec fn history(&self) -> Seq<MessageView> {
        self.history@
    }

    /// Number of handles handed out so far.
    pub closed spec fn handles(&self) -> nat {
        self.cursors@.len()
    }

    /// Whether handle `id` is subscribed.
    pub closed spec fn is_active(&self, id: int) -> bool {
        0 <= id < self.cursors@.len() && self.cursors@[id] is Some
    }

    spec fn base(&self) -> int {
        self.published - self.window@.len()
    }

    spec fn start_of(&self, id: int) -> int {
        let c = self.cursors@[id]->0 as int;
        if c < self.base() {
            self.base()
        } else {
            c
        }
    }

    /// The messages that subscriber `id` has yet to read, oldest first.
    pub closed spec fn pending(&self, id: int) -> Seq<MessageView> {
        self.history@.subrange(self.start_of(id), self.published as int)
    }

    /// How many messages subscriber `id` has lost to a full buffer since its
    /// last read.
    pub closed spec fn lag(&self, id: int) -> nat {
        let c = self.cursors@[id]->0 as int;
        if c < self.base() {
            (self.base() - c) as nat
        } else {
            0
        }
    }

    pub closed spec fn wf(&self) -> bool {
        &&& self.capacity > 0
        &&& self.history@.len() == self.published
        &&& self.window@.len() == if self.published < self.capacity {
            self.published as int
        } else {
            self.capacity as int
        }
        &&& forall|k: int|
            0 <= k < self.window@.len() ==> (#[trigger] self.window@[k])@ == self.history@[self.base() + k]
        &&& forall|i: int|
            0 <= i < self.cursors@.len() && (#[trigger] self.cursors@[i]) is Some ==> self.cursors@[i]->0
                <= self.published
    }

    /// Every subscriber's buffer holds at most `capacity` messages.
    pub proof fn lemma_bounded(&self, id: int)
        requires
            self.wf(),
            self.is_active(id),
        ensures
            self.pending(id).len() <= self.capacity_spec(),
    {
    }

    /// A well-formed distributor has room for at least one message per
    /// subscriber.
    pub proof fn lemma_capacity_positive(&self)
        requires
            self.wf(),
        ensures
            self.capacity_spec() > 0,
    {
    }

    pub fn new(capacity: usize) -> (r: Self)
        requires
            capacity > 0,
        ensures
            r.wf(),
            r.capacity_spec() == capacity,
            r.history() == Seq::<MessageView>::empty(),
            r.handles() == 0,
    {
        Distributor {
            capacity,
            window: VecDeque::new(),
            published: 0,
            cursors: Vec::new(),
            history: Ghost(Seq::empty()),
        }
    }

    pub fn capacity(&self) -> (r: usize)
        ensures
            r == self.capacity_spec(),
    {
        self.capacity
    }

    /// Whether the message counter has room for one more message.
    pub fn can_publish(&self) -> (r: bool)
        requires
            self.wf(),
        ensures
            r == (self.history().len() < u64::MAX),
    {
        self.published < u64::MAX
    }

    /// A new handle that sees only what is published from now on.
    pub fn subscribe(&mut self) -> (id: usize)
        requires
            old(self).wf(),
        ensures
            final(self).wf(),
            id == old(self).handles(),
            final(self).handles() == old(self).handles() + 1,
            final(self).capacity_spec() == old(self).capacity_spec(),
            final(self).history() == old(self).history(),
            final(self).is_active(id as int),
            final(self).pending(id as int).len() == 0,
            final(self).lag(id as int) == 0,
            forall|j: int|
                0 <= j < old(self).handles() ==> (#[trigger] final(self).is_active(j)) == old(self).is_active(j)
                    && final(self).pending(j) == old(self).pending(j) && final(self).lag(j) == old(self).lag(j),
    {
        let id = self.cursors.len();
        self.cursors.push(Some(self.published));
        proof {
            assert forall|j: int| 0 <= j < old(self).handles() implies (#[trigger] self.is_active(j))
                == old(self).is_active(j) && self.pending(j) == old(self).pending(j) && self.lag(j)
                == old(self).lag(j) by {
                assert(self.cursors@[j] == old(self).cursors@[j]);
            }
        }
        id
    }

    /// Releases handle `id`; nothing else changes.
    pub fn unsubscribe(&mut self, id: usize)
        requires
            old(self).wf(),
        ensures
            final(self).wf(),
            !final(self).is_active(id as int),
            final(self).handles() == old(self).handles(),
            final(self).capacity_spec() == old(self).capacity_spec(),
            final(self).history() == old(self).history(),
            forall|j: int| j != id ==> (#[trigger] final(self).is_active(j)) == old(self).is_active(j),
            forall|j: int|
                0 <= j < old(self).handles() && j != id ==> (#[trigger] final(self).pending(j)) == old(
                    self,
                ).pending(j) && final(self).lag(j) == old(self).lag(j),
    {
        if id < self.cursors.len() {
            self.cursors.set(id, None);
            proof {
                assert forall|j: int| 0 <= j < old(self).handles() && j != id implies (#[trigger] self.pending(j))
                    == old(self).pending(j) && self.lag(j) == old(self).lag(j) && self.is_active(j)
                    == old(self).is_active(j) by {
                    assert(self.cursors@[j] == old(self).cursors@[j]);
                }
            }
        }
    }

    /// Hands `msg` to every subscriber: each buffer takes it at the end, and
    /// a full one drops its oldest message first and counts it as lost.
    /// Takes the same time whatever the subscribers' read rates.
    pub fn publish(&mut self, msg: MarketDataMessage)
        requires
            old(self).wf(),
            old(self).history().len() < u64::MAX,
        ensures
            final(self).wf(),
            final(self).history() == old(self).history().push(msg@),
            final(self).handles() == old(self).handles(),
            final(self).capacity_spec() == old(self).capacity_spec(),
            forall|j: int| #[trigger] final(self).is_active(j) == old(self).is_active(j),
            forall|j: int|
                old(self).is_active(j) ==> (#[trigger] final(self).pending(j), final(self).lag(j)) == offer(
                    old(self).pending(j),
                    old(self).lag(j),
                    msg@,
                    old(self).capacity_spec(),
                ),
    {
        let ghost m = msg@;
        if self.window.len() == self.capacity {
            self.window.pop_front();
        }
        self.window.push_back(msg);
        self.published = self.published + 1;
        self.history = Ghost(self.history@.push(m));
        proof {
            let o = old(self);
            assert forall|k: int| 0 <= k < self.window@.len() implies (#[trigger] self.window@[k])@
                == self.history@[self.base() + k] by {
                if k < self.window@.len() - 1 {
                    if o.window@.len() == o.capacity {
                        assert(self.window@[k] == o.window@[k + 1]);
                    } else {
                        assert(self.window@[k] == o.window@[k]);
                    }
                }
            }
            assert forall|j: int| o.is_active(j) implies (#[trigger] self.pending(j), self.lag(j)) == offer(
                o.pending(j),
                o.lag(j),
                m,
                o.capacity_spec(),
            ) by {
                assert(self.cursors@[j] == o.cursors@[j]);
                let q = o.pending(j);
                if q.len() < o.capacity {
                    assert(self.pending(j) =~= q.push(m));
                } else {
                    assert(self.pending(j) =~= q.drop_first().push(m));
                }
            }
        }
    }

    /// Reads subscriber `id`'s buffer: first the count of messages lost since
    /// the last read, if any; else the oldest unread message.
    pub fn receive(&mut self, id: usize) -> (r: Received)
        requires
            old(self).wf(),
        ensures
            final(self).wf(),
            final(self).history() == old(self).history(),
            final(self).handles() == old(self).handles(),
            final(self).capacity_spec() == old(self).capacity_spec(),
            forall|j: int| #[trigger] final(self).is_active(j) == old(self).is_active(j),
            forall|j: int|
                0 <= j < old(self).handles() && j != id ==> (#[trigger] final(self).pending(j))
                    == old(self).pending(j) && final(self).lag(j) == old(self).lag(j),
            !old(self).is_active(id as int) ==> r is Closed,
            old(self).is_active(id as int) && old(self).lag(id as int) > 0 ==> r == Received::Lagged(
                old(self).lag(id as int) as u64,
            ) && final(self).lag(id as int) == 0 && final(self).pending(id as int) == old(self).pending(
                id as int,
            ),
            old(self).is_active(id as int) && old(self).lag(id as int) == 0 && old(self).pending(
                id as int,
            ).len() == 0 ==> r is Empty && final(self).lag(id as int) == 0 && final(self).pending(id as int)
                == old(self).pending(id as int),
            old(self).is_active(id as int) && old(self).lag(id as int) == 0 && old(self).pending(
                id as int,
            ).len() > 0 ==> (r matches Received::Message(m) && m@ == old(self).pending(id as int)[0])
                && final(self).lag(id as int) == 0 && final(self).pending(id as int) == old(
                self,
            ).pending(id as int).drop_first(),
    {
        if id >= self.cursors.len() {
            return Received::Closed;
        }
        match self.cursors[id] {
            None => Received::Closed,
            Some(c) => {
                let base: u64 = self.published - self.window.len() as u64;
                if c < base {
                    self.cursors.set(id, Some(base));
                    proof { self.lemma_others_kept(old(self), id as int); }
                    return Received::Lagged(base - c);
                }
                if c == self.published {
                    return Received::Empty;
                }
                let m = self.window[(c - base) as usize].duplicate();
                self.cursors.set(id, Some(c + 1));
                proof {
                    self.lemma_others_kept(old(self), id as int);
                    assert(self.pending(id as int) =~= old(self).pending(id as int).drop_first());
                }
                Received::Message(m)
            },
        }
    }

    proof fn lemma_others_kept(&self, prev: &Distributor, id: int)
        requires
            self.history@ == prev.history@,
            self.window@ == prev.window@,
            self.published == prev.published,
            self.cursors@.len() == prev.cursors@.len(),
            forall|j: int| 0 <= j < self.cursors@.len() && j != id ==> self.cursors@[j] == prev.cursors@[j],
        ensures
            forall|j: int|
                0 <= j < prev.handles() && j != id ==> (#[trigger] self.pending(j)) == prev.pending(j)
                    && self.lag(j) == prev.lag(j),
    {
    }
}

/// Isolation of subscribers. A subscriber that reads after every publish
/// finds exactly the new message in its buffer each time, so it receives
/// every message in order. One that does not read, starting empty, holds
/// after `n` messages the latest `min(n, cap)` of them, in order, and counts
/// the rest as lost.
pub proof fn lemma_isolation(ms: Seq<MessageView>, cap: nat)
    requires
        cap > 0,
    ensures
        forall|m: MessageView| #[trigger] offer(Seq::empty(), 0, m, cap) == (seq![m], 0nat),
        offer_all(Seq::empty(), 0, ms, cap).0 == ms.subrange(
            if ms.len() > cap { ms.len() - cap } else { 0 },
            ms.len() as int,
        ),
        offer_all(Seq::empty(), 0, ms, cap).1 == if ms.len() > cap { ms.len() - cap } else { 0 },
    decreases ms.len(),
{
    assert forall|m: MessageView| #[trigger] offer(Seq::empty(), 0, m, cap) == (seq![m], 0nat) by {
        assert(Seq::<MessageView>::empty().push(m) =~= seq![m]);
    }
    if ms.len() > 0 {
        let rest = ms.drop_last();
        lemma_isolation(rest, cap);
        let n = ms.len() as int;
        if n > cap {
            assert(offer_all(Seq::empty(), 0, ms, cap).0 =~= ms.subrange(n - cap, n));
        } else {
            assert(offer_all(Seq::empty(), 0, ms, cap).0 =~= ms.subrange(0, n));
        }
    }
}

} // verus!
