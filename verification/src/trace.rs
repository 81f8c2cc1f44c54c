//! What holds of the store over whole runs: any sequence of pushes,
//! subscriptions, polls and departures, in any interleaving.

use vstd::prelude::*;
use crate::artifact::PlotMessage;
use crate::store::{first_vacant, retained, Delivery, FeedView, StoreView, FEED_CAPACITY};

verus! {

/// One operation on the store.
pub enum Step {
    /// An artifact is pushed.
    Push(PlotMessage),
    /// The viewer at the slot asks for its next artifact.
    Poll(nat),
    /// A viewer subscribes and takes the free slot.
    Subscribe,
    /// The subscription at the slot ends.
    Unsubscribe(nat),
}

/// The store after one operation.
pub open spec fn stepped(store: StoreView, step: Step) -> StoreView {
    match step {
        Step::Push(msg) => store.pushed(msg),
        Step::Poll(slot) => store.polled(slot),
        Step::Subscribe => store.subscribed(),
        Step::Unsubscribe(slot) => store.unsubscribed(slot),
    }
}

/// The store after a run of operations, first to last.
pub open spec fn run(store: StoreView, steps: Seq<Step>) -> StoreView
    decreases steps.len(),
{
    if steps.len() == 0 {
        store
    } else {
        stepped(run(store, steps.drop_last()), steps.last())
    }
}

/// The artifacts that a run pushes, in push order.
pub open spec fn pushes(steps: Seq<Step>) -> Seq<PlotMessage>
    decreases steps.len(),
{
    if steps.len() == 0 {
        Seq::empty()
    } else {
        match steps.last() {
            Step::Push(msg) => pushes(steps.drop_last()).push(msg),
            _ => pushes(steps.drop_last()),
        }
    }
}

/// The artifacts that the polls of a run hand to the viewer at `slot`, in the
/// order in which it gets them.
pub open spec fn received(store: StoreView, steps: Seq<Step>, slot: nat) -> Seq<PlotMessage>
    decreases steps.len(),
{
    if steps.len() == 0 {
        Seq::empty()
    } else {
        let before = run(store, steps.drop_last());
        let earlier = received(store, steps.drop_last(), slot);
        match (steps.last(), before.delivery(slot)) {
            (Step::Poll(at), Delivery::Artifact(msg)) => if at == slot {
                earlier.push(msg)
            } else {
                earlier
            },
            _ => earlier,
        }
    }
}

/// Whether a run leaves the subscription at `slot` in place.
pub open spec fn keeps(steps: Seq<Step>, slot: nat) -> bool {
    forall|i: int| 0 <= i < steps.len() ==> #[trigger] steps[i] != Step::Unsubscribe(slot)
}

/// A run that leaves a subscription in place leaves it in place up to its
/// last step too.
pub proof fn lemma_keeps_earlier(steps: Seq<Step>, slot: nat)
    requires
        steps.len() > 0,
        keeps(steps, slot),
    ensures
        keeps(steps.drop_last(), slot),
        steps.last() != Step::Unsubscribe(slot),
{
    let init = steps.drop_last();
    assert forall|i: int| 0 <= i < init.len() implies #[trigger] init[i] != Step::Unsubscribe(
        slot,
    ) by {
        assert(init[i] == steps[i]);
    }
    assert(steps.last() == steps[steps.len() - 1]);
}

/// The free slot is vacant or lies behind the last slot.
pub proof fn lemma_first_vacant(feeds: Seq<FeedView>, from: nat)
    requires
        from <= feeds.len(),
    ensures
        from <= first_vacant(feeds, from) <= feeds.len(),
        first_vacant(feeds, from) < feeds.len() ==> !feeds[first_vacant(feeds, from) as int].active,
    decreases feeds.len() - from,
{
    if from < feeds.len() && feeds[from as int].active {
        lemma_first_vacant(feeds, from + 1);
    }
}

/// Every operation keeps the store within its bounds.
pub proof fn lemma_step_keeps_bounds(store: StoreView, step: Step)
    requires
        store.wf(),
    ensures
        stepped(store, step).wf(),
        stepped(store, step).limit == store.limit,
{
    lemma_first_vacant(store.feeds, 0);
    let after = stepped(store, step);
    assert forall|i: int| 0 <= i < after.feeds.len() implies (#[trigger] after.feeds[i]).wf() by {
        if i < store.feeds.len() {
            assert(store.feeds[i].wf());
        }
    }
}

/// After every operation of every run the history holds at most as many
/// artifacts as the limit allows, and every feed stays within its capacity.
pub proof fn lemma_run_keeps_bounds(store: StoreView, steps: Seq<Step>)
    requires
        store.wf(),
    ensures
        run(store, steps).wf(),
        run(store, steps).limit == store.limit,
        run(store, steps).history.len() <= store.limit,
    decreases steps.len(),
{
    if steps.len() > 0 {
        lemma_run_keeps_bounds(store, steps.drop_last());
        lemma_step_keeps_bounds(run(store, steps.drop_last()), steps.last());
    }
}

/// Evicting after every push keeps the same entries as evicting once at the
/// end.
pub proof fn lemma_retained_push(all: Seq<PlotMessage>, limit: nat, msg: PlotMessage)
    ensures
        retained(retained(all, limit).push(msg), limit) == retained(all.push(msg), limit),
{
    assert(retained(retained(all, limit).push(msg), limit) =~= retained(all.push(msg), limit));
}

/// The history after a run holds the most recent artifacts of what it held
/// before followed by what the run pushed, as many as the limit allows, in
/// push order.
pub proof fn lemma_history_after_run(store: StoreView, steps: Seq<Step>)
    requires
        store.wf(),
    ensures
        run(store, steps).history == retained(store.history + pushes(steps), store.limit),
    decreases steps.len(),
{
    if steps.len() == 0 {
        assert(store.history + pushes(steps) =~= store.history);
    } else {
        let init = steps.drop_last();
        let before = run(store, init);
        lemma_history_after_run(store, init);
        lemma_run_keeps_bounds(store, init);
        match steps.last() {
            Step::Push(msg) => {
                lemma_retained_push(store.history + pushes(init), store.limit, msg);
                assert((store.history + pushes(init)).push(msg) =~= store.history + pushes(
                    steps,
                ));
            },
            _ => {},
        }
    }
}

/// For every sequence of operations on a store that starts empty, the
/// history holds exactly the most recent `min(limit, pushed)` artifacts, in
/// push order.
pub proof fn lemma_history_is_most_recent(limit: nat, steps: Seq<Step>)
    ensures
        run(StoreView::fresh(limit), steps).history == retained(pushes(steps), limit),
        run(StoreView::fresh(limit), steps).history.len() == if pushes(steps).len() <= limit {
            pushes(steps).len()
        } else {
            limit
        },
{
    let store = StoreView::fresh(limit);
    lemma_history_after_run(store, steps);
    assert(store.history + pushes(steps) =~= pushes(steps));
}

/// A viewer keeps its slot through every run that does not end its
/// subscription, and what it has received so far followed by what still waits
/// in its feed is what waited at the start followed by every artifact pushed
/// since, each once and in push order, unless the viewer lagged.
pub proof fn lemma_feed_accounts_for_pushes(store: StoreView, steps: Seq<Step>, slot: nat)
    requires
        store.wf(),
        store.subscribed_at(slot),
        keeps(steps, slot),
    ensures
        run(store, steps).subscribed_at(slot),
        run(store, steps).feeds[slot as int].live() ==> store.feeds[slot as int].live()
            && received(store, steps, slot) + run(store, steps).feeds[slot as int].pending
            == store.feeds[slot as int].pending + pushes(steps),
    decreases steps.len(),
{
    if steps.len() == 0 {
        assert(received(store, steps, slot) + store.feeds[slot as int].pending
            =~= store.feeds[slot as int].pending + pushes(steps));
    } else {
        let init = steps.drop_last();
        let before = run(store, init);
        let after = run(store, steps);
        lemma_keeps_earlier(steps, slot);
        lemma_feed_accounts_for_pushes(store, init, slot);
        lemma_run_keeps_bounds(store, init);
        lemma_first_vacant(before.feeds, 0);
        assert(before.feeds[slot as int].wf());
        let start = store.feeds[slot as int].pending;
        match steps.last() {
            Step::Push(msg) => {
                if after.feeds[slot as int].live() {
                    assert(received(store, steps, slot) + after.feeds[slot as int].pending =~= (
                    received(store, init, slot) + before.feeds[slot as int].pending).push(msg));
                    assert(start + pushes(steps) =~= (start + pushes(init)).push(msg));
                }
            },
            Step::Poll(at) => {
                if after.feeds[slot as int].live() {
                    if at == slot && before.delivery(slot) is Artifact {
                        assert(received(store, steps, slot) + after.feeds[slot as int].pending
                            =~= received(store, init, slot) + before.feeds[slot as int].pending);
                    }
                }
            },
            Step::Subscribe => {},
            Step::Unsubscribe(at) => {},
        }
    }
}

/// A viewer that attaches to the store gets the history of that moment as
/// its replay and an empty feed; from then on, through every run that does
/// not end its subscription, what it receives followed by what still waits in
/// its feed is exactly what was pushed after it attached, each artifact once
/// and in push order, unless the viewer lagged.
pub proof fn lemma_viewer_misses_nothing(store: StoreView, steps: Seq<Step>)
    requires
        store.wf(),
        keeps(steps, store.free_slot()),
    ensures
        run(store.subscribed(), steps).subscribed_at(store.free_slot()),
        run(store.subscribed(), steps).feeds[store.free_slot() as int].live() ==> received(
            store.subscribed(),
            steps,
            store.free_slot(),
        ) + run(store.subscribed(), steps).feeds[store.free_slot() as int].pending == pushes(steps),
{
    let slot = store.free_slot();
    let joined = store.subscribed();
    lemma_first_vacant(store.feeds, 0);
    lemma_step_keeps_bounds(store, Step::Subscribe);
    lemma_feed_accounts_for_pushes(joined, steps, slot);
    assert(joined.feeds[slot as int].pending + pushes(steps) =~= pushes(steps));
}

/// A viewer whose feed never holds more than its capacity does not lag: while
/// at most `FEED_CAPACITY` artifacts are pushed after it attached, its feed
/// stays live.
pub proof fn lemma_few_pushes_never_lag(store: StoreView, steps: Seq<Step>, slot: nat)
    requires
        store.wf(),
        store.subscribed_at(slot),
        store.feeds[slot as int].live(),
        keeps(steps, slot),
        store.feeds[slot as int].pending.len() + pushes(steps).len() <= FEED_CAPACITY,
    ensures
        run(store, steps).feeds[slot as int].live(),
        run(store, steps).feeds[slot as int].pending.len() <= store.feeds[slot as int].pending.len()
            + pushes(steps).len(),
    decreases steps.len(),
{
    if steps.len() > 0 {
        let init = steps.drop_last();
        let before = run(store, init);
        lemma_keeps_earlier(steps, slot);
        lemma_few_pushes_never_lag(store, init, slot);
        lemma_feed_accounts_for_pushes(store, init, slot);
        lemma_run_keeps_bounds(store, init);
        lemma_first_vacant(before.feeds, 0);
    }
}

} // verus!
