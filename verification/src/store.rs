//! The history and fan-out store: a bounded, first-in-first-out history of
//! artifacts and one bounded live feed per subscribed viewer.
//!
//! Every mutation goes through one owner, so a snapshot and a subscription
//! that are taken in one call can miss no artifact and repeat none.

use vstd::prelude::*;
use std::collections::VecDeque;
use crate::artifact::PlotMessage;

verus! {

/// How many undelivered artifacts one live feed holds before the viewer
/// counts as lagging.
pub const FEED_CAPACITY: usize = 64;

/// What a viewer gets when it asks its feed for the next artifact.
#[derive(Debug, PartialEq, Eq)]
pub enum Delivery {
    /// The next artifact, in push order.
    Artifact(PlotMessage),
    /// Nothing is waiting.
    Empty,
    /// The viewer fell behind; its backlog was dropped.
    Lagged,
    /// The slot holds no subscription.
    Closed,
}

/// One live feed as mathematics.
pub struct FeedView {
    pub active: bool,
    pub lagged: bool,
    pub pending: Seq<PlotMessage>,
}

impl FeedView {
    /// A slot without a subscription.
    pub open spec fn vacant() -> FeedView {
        FeedView { active: false, lagged: false, pending: Seq::empty() }
    }

    /// A subscription that has received nothing yet.
    pub open spec fn fresh() -> FeedView {
        FeedView { active: true, lagged: false, pending: Seq::empty() }
    }

    /// The feed holds no more than its capacity, and nothing at all while it
    /// is vacant or has lagged.
    pub open spec fn wf(self) -> bool {
        &&& self.pending.len() <= FEED_CAPACITY
        &&& !self.active ==> !self.lagged && self.pending.len() == 0
        &&& self.lagged ==> self.pending.len() == 0
    }

    /// Whether the feed takes the next artifact.
    pub open spec fn live(self) -> bool {
        self.active && !self.lagged
    }

    /// The feed after an artifact was pushed to the store: a live feed with
    /// room queues it, a full one drops its backlog and counts as lagging.
    pub open spec fn fed(self, msg: PlotMessage) -> FeedView {
        if !self.live() {
            self
        } else if self.pending.len() < FEED_CAPACITY {
            FeedView { active: true, lagged: false, pending: self.pending.push(msg) }
        } else {
            FeedView { active: true, lagged: true, pending: Seq::empty() }
        }
    }
}

/// The most recent `limit` entries of `all`, in order.
pub open spec fn retained(all: Seq<PlotMessage>, limit: nat) -> Seq<PlotMessage> {
    if all.len() <= limit {
        all
    } else {
        all.subrange(all.len() - limit, all.len() as int)
    }
}

/// The first index at or after `from` whose slot is vacant, or the number of
/// slots if there is none.
pub open spec fn first_vacant(feeds: Seq<FeedView>, from: nat) -> nat
    decreases feeds.len() - from,
{
    if from >= feeds.len() {
        feeds.len()
    } else if !feeds[from as int].active {
        from
    } else {
        first_vacant(feeds, from + 1)
    }
}

/// The store as mathematics.
pub struct StoreView {
    pub history: Seq<PlotMessage>,
    pub limit: nat,
    pub feeds: Seq<FeedView>,
}

impl StoreView {
    /// An empty store with the given history limit and no subscribers.
    pub open spec fn fresh(limit: nat) -> StoreView {
        StoreView { history: Seq::empty(), limit, feeds: Seq::empty() }
    }

    /// The history holds no more than the limit allows, and every feed is
    /// within its bounds.
    pub open spec fn wf(self) -> bool {
        &&& self.history.len() <= self.limit
        &&& forall|i: int| 0 <= i < self.feeds.len() ==> (#[trigger] self.feeds[i]).wf()
    }

    /// Whether `slot` holds a subscription.
    pub open spec fn subscribed_at(self, slot: nat) -> bool {
        slot < self.feeds.len() && self.feeds[slot as int].active
    }

    /// The store after `msg` was pushed: appended to the history, the oldest
    /// entries evicted down to the limit, and offered to every feed.
    pub open spec fn pushed(self, msg: PlotMessage) -> StoreView {
        StoreView {
            history: retained(self.history.push(msg), self.limit),
            limit: self.limit,
            feeds: Seq::new(self.feeds.len(), |i: int| self.feeds[i].fed(msg)),
        }
    }

    /// The slot that the next subscription takes.
    pub open spec fn free_slot(self) -> nat {
        first_vacant(self.feeds, 0)
    }

    /// The store after a viewer subscribed.
    pub open spec fn subscribed(self) -> StoreView {
        let slot = self.free_slot();
        StoreView {
            history: self.history,
            limit: self.limit,
            feeds: if slot < self.feeds.len() {
                self.feeds.update(slot as int, FeedView::fresh())
            } else {
                self.feeds.push(FeedView::fresh())
            },
        }
    }

    /// The store after the subscription at `slot` ended.
    pub open spec fn unsubscribed(self, slot: nat) -> StoreView {
        if self.subscribed_at(slot) {
            StoreView {
                history: self.history,
                limit: self.limit,
                feeds: self.feeds.update(slot as int, FeedView::vacant()),
            }
        } else {
            self
        }
    }

    /// What the viewer at `slot` gets when it asks for the next artifact.
    pub open spec fn delivery(self, slot: nat) -> Delivery {
        if !self.subscribed_at(slot) {
            Delivery::Closed
        } else if self.feeds[slot as int].lagged {
            Delivery::Lagged
        } else if self.feeds[slot as int].pending.len() == 0 {
            Delivery::Empty
        } else {
            Delivery::Artifact(self.feeds[slot as int].pending[0])
        }
    }

    /// The store after the viewer at `slot` asked for the next artifact.
    pub open spec fn polled(self, slot: nat) -> StoreView {
        if self.delivery(slot) is Artifact {
            StoreView {
                history: self.history,
                limit: self.limit,
                feeds: self.feeds.update(
                    slot as int,
                    FeedView {
                        active: true,
                        lagged: false,
                        pending: self.feeds[slot as int].pending.drop_first(),
                    },
                ),
            }
        } else {
            self
        }
    }
}

/// One live feed.
pub struct Feed {
    active: bool,
    lagged: bool,
    pending: VecDeque<PlotMessage>,
}

impl View for Feed {
    type V = FeedView;

    closed spec fn view(&self) -> FeedView {
        FeedView { active: self.active, lagged: self.lagged, pending: self.pending@ }
    }
}

impl Feed {
    fn fresh() -> (feed: Feed)
        ensures
            feed@ == FeedView::fresh(),
    {
        Feed { active: true, lagged: false, pending: VecDeque::new() }
    }

    fn offer(&mut self, msg: &PlotMessage)
        requires
            old(self)@.wf(),
        ensures
            final(self)@ == old(self)@.fed(*msg),
            final(self)@.wf(),
    {
        if self.active && !self.lagged {
            if self.pending.len() < FEED_CAPACITY {
                self.pending.push_back(msg.clone());
            } else {
                self.lagged = true;
                self.pending.clear();
            }
        }
    }
}

/// The shared state of a running server: the history and the live feeds.
pub struct PlotState {
    history: Vec<PlotMessage>,
    history_limit: usize,
    feeds: Vec<Feed>,
}

impl View for PlotState {
    type V = StoreView;

    closed spec fn view(&self) -> StoreView {
        StoreView {
            history: self.history@,
            limit: self.history_limit as nat,
            feeds: Seq::new(self.feeds@.len(), |i: int| self.feeds@[i]@),
        }
    }
}

impl PlotState {
    /// Whether the store keeps its bounds: the history within its limit and
    /// every feed within its capacity.
    pub open spec fn wf(&self) -> bool {
        self@.wf()
    }

    /// Creates an empty store that keeps at most `history_limit` artifacts.
    pub fn new(history_limit: usize) -> (state: PlotState)
        ensures
            state@ == StoreView::fresh(history_limit as nat),
            state.wf(),
    {
        let state = PlotState { history: Vec::new(), history_limit, feeds: Vec::new() };
        assert(state@.feeds =~= Seq::empty());
        state
    }

    /// The configured history limit.
    pub fn history_limit(&self) -> (limit: usize)
        ensures
            limit == self@.limit,
    {
        self.history_limit
    }

    /// The number of artifacts currently in the history.
    pub fn len(&self) -> (count: usize)
        ensures
            count == self@.history.len(),
    {
        self.history.len()
    }

    /// Stores `msg` as the newest artifact, evicts the oldest entries beyond
    /// the limit and offers `msg` to every subscribed viewer. A store without
    /// subscribers just keeps the artifact.
    pub fn push(&mut self, msg: PlotMessage)
        requires
            old(self).wf(),
        ensures
            final(self)@ == old(self)@.pushed(msg),
            final(self).wf(),
    {
        let mut i: usize = 0;
        while i < self.feeds.len()
            invariant
                i <= self.feeds@.len(),
                self.feeds@.len() == old(self).feeds@.len(),
                self.history == old(self).history,
                self.history_limit == old(self).history_limit,
                forall|j: int|
                    0 <= j < i ==> (#[trigger] self.feeds@[j])@ == old(self).feeds@[j]@.fed(msg),
                forall|j: int| 0 <= j < i ==> (#[trigger] self.feeds@[j])@.wf(),
                forall|j: int|
                    i <= j < self.feeds@.len() ==> self.feeds@[j] == old(self).feeds@[j],
                old(self).wf(),
            decreases self.feeds@.len() - i,
        {
            assert(old(self)@.feeds[i as int].wf());
            let feed = &mut self.feeds[i];
            feed.offer(&msg);
            i += 1;
        }
        if self.history_limit > 0 {
            if self.history.len() >= self.history_limit {
                self.history.remove(0);
            }
            self.history.push(msg);
        }
        proof {
            assert(self@.history =~= old(self)@.pushed(msg).history);
            assert(self@.feeds =~= old(self)@.pushed(msg).feeds);
        }
    }

    /// The slot that the next subscription takes: the first vacant one, or a
    /// new one behind the last.
    fn find_free_slot(&self) -> (slot: usize)
        ensures
            slot == self@.free_slot(),
            slot <= self.feeds@.len(),
            slot < self.feeds@.len() ==> !self@.feeds[slot as int].active,
    {
        let mut i: usize = 0;
        while i < self.feeds.len()
            invariant
                i <= self.feeds@.len(),
                first_vacant(self@.feeds, 0) == first_vacant(self@.feeds, i as nat),
            decreases self.feeds@.len() - i,
        {
            if !self.feeds[i].active {
                return i;
            }
            i += 1;
        }
        i
    }

    /// Opens a live feed that receives every artifact pushed from now on, and
    /// returns its slot.
    pub fn subscribe(&mut self) -> (slot: usize)
        requires
            old(self).wf(),
        ensures
            slot == old(self)@.free_slot(),
            final(self)@ == old(self)@.subscribed(),
            final(self)@.subscribed_at(slot as nat),
            final(self).wf(),
    {
        let slot = self.find_free_slot();
        proof {
            if slot < self.feeds@.len() {
                assert(old(self)@.feeds[slot as int].wf());
            }
        }
        if slot < self.feeds.len() {
            let feed = &mut self.feeds[slot];
            feed.active = true;
        } else {
            self.feeds.push(Feed::fresh());
        }
        proof {
            if slot < old(self).feeds@.len() {
                assert(self@.feeds[slot as int].pending =~= Seq::empty());
            }
            assert(self@.feeds =~= old(self)@.subscribed().feeds);
        }
        slot
    }

    /// Takes the history snapshot and opens a live feed in one step, so that
    /// no push falls between the two.
    pub fn attach(&mut self) -> (session: (usize, Vec<PlotMessage>))
        requires
            old(self).wf(),
        ensures
            session.0 == old(self)@.free_slot(),
            session.1@ == old(self)@.history,
            final(self)@ == old(self)@.subscribed(),
            final(self)@.subscribed_at(session.0 as nat),
            final(self).wf(),
    {
        let history = self.snapshot();
        let slot = self.subscribe();
        (slot, history)
    }

    /// Ends the subscription at `slot` and frees the slot. A slot without a
    /// subscription is left as it is.
    pub fn unsubscribe(&mut self, slot: usize)
        requires
            old(self).wf(),
        ensures
            final(self)@ == old(self)@.unsubscribed(slot as nat),
            final(self).wf(),
    {
        if slot < self.feeds.len() {
            let feed = &mut self.feeds[slot];
            if feed.active {
                feed.active = false;
                feed.lagged = false;
                feed.pending.clear();
            }
            proof {
                assert(self@.feeds =~= old(self)@.unsubscribed(slot as nat).feeds);
            }
        }
    }

    /// Hands the viewer at `slot` its next artifact, if one is waiting, and
    /// says otherwise why there is none.
    pub fn poll(&mut self, slot: usize) -> (delivery: Delivery)
        requires
            old(self).wf(),
        ensures
            delivery == old(self)@.delivery(slot as nat),
            final(self)@ == old(self)@.polled(slot as nat),
            final(self).wf(),
    {
        if slot >= self.feeds.len() {
            return Delivery::Closed;
        }
        proof {
            assert(old(self)@.feeds[slot as int].wf());
        }
        if !self.feeds[slot].active {
            Delivery::Closed
        } else if self.feeds[slot].lagged {
            Delivery::Lagged
        } else {
            let feed = &mut self.feeds[slot];
            let next = feed.pending.pop_front();
            proof {
                assert(self@.feeds =~= old(self)@.polled(slot as nat).feeds);
            }
            match next {
                Some(msg) => Delivery::Artifact(msg),
                None => Delivery::Empty,
            }
        }
    }

    /// The current history, oldest first.
    pub fn snapshot(&self) -> (history: Vec<PlotMessage>)
        ensures
            history@ == self@.history,
    {
        let history = self.history.clone();
        assert(history@ =~= self.history@);
        history
    }
}

} // verus!
