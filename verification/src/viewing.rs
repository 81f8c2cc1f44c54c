//! What a viewer sees over a whole session, whatever else happens to the
//! store meanwhile.

use vstd::prelude::*;
use crate::artifact::PlotMessage;
use crate::auth::authorized;
use crate::session::{SessionAction, SessionEvent, SessionView};
use crate::store::{StoreView, FEED_CAPACITY};
use crate::trace::{lemma_first_vacant, lemma_step_keeps_bounds, stepped, Step};

verus! {

/// One thing that happens while a session is open.
pub enum Move {
    /// Somebody else uses the store: a publisher pushes, another viewer
    /// comes, polls or goes.
    Store(Step),
    /// The session's own transport reports.
    Report(SessionEvent),
}

/// A session together with the store it is attached to.
pub struct Attached {
    pub session: SessionView,
    pub store: StoreView,
}

/// Whether a store operation of somebody else leaves the feed at `slot` to
/// its owner.
pub open spec fn foreign(step: Step, slot: nat) -> bool {
    step != Step::Poll(slot) && step != Step::Unsubscribe(slot)
}

/// Whether every move is one that lets the session go on undisturbed: the
/// others keep off its feed, and its transport reports no failure.
pub open spec fn undisturbed(moves: Seq<Move>, slot: nat) -> bool {
    forall|i: int|
        0 <= i < moves.len() ==> match #[trigger] moves[i] {
            Move::Store(step) => foreign(step, slot),
            Move::Report(event) => event.goes_on(),
        }
}

/// Session and store after one move.
pub open spec fn moved(at: Attached, m: Move) -> Attached {
    match m {
        Move::Store(step) => Attached { session: at.session, store: stepped(at.store, step) },
        Move::Report(event) => Attached {
            session: at.session.advanced(at.store, event).session,
            store: at.session.advanced(at.store, event).store,
        },
    }
}

/// Session and store after a run of moves, first to last.
pub open spec fn played(at: Attached, moves: Seq<Move>) -> Attached
    decreases moves.len(),
{
    if moves.len() == 0 {
        at
    } else {
        moved(played(at, moves.drop_last()), moves.last())
    }
}

/// The artifact that an action hands to the transport, if it hands one.
pub open spec fn handed(action: SessionAction) -> Seq<PlotMessage> {
    match action {
        SessionAction::Transmit(msg) => seq![msg],
        _ => Seq::empty(),
    }
}

/// The artifacts that the session hands to its transport during a run of
/// moves, in the order in which it hands them.
pub open spec fn transmitted(at: Attached, moves: Seq<Move>) -> Seq<PlotMessage>
    decreases moves.len(),
{
    if moves.len() == 0 {
        Seq::empty()
    } else {
        let before = played(at, moves.drop_last());
        let earlier = transmitted(at, moves.drop_last());
        match moves.last() {
            Move::Report(event) => earlier + handed(
                before.session.advanced(before.store, event).action,
            ),
            Move::Store(_) => earlier,
        }
    }
}

/// The artifacts that are pushed to the store during a run of moves, in push
/// order.
pub open spec fn published(moves: Seq<Move>) -> Seq<PlotMessage>
    decreases moves.len(),
{
    if moves.len() == 0 {
        Seq::empty()
    } else {
        match moves.last() {
            Move::Store(Step::Push(msg)) => published(moves.drop_last()).push(msg),
            _ => published(moves.drop_last()),
        }
    }
}

/// Whether the session is sending and its feed has not lagged.
pub open spec fn keeping_up(at: Attached) -> bool {
    &&& at.session.open()
    &&& at.store.subscribed_at(at.session.slot)
    &&& at.store.feeds[at.session.slot as int].live()
}

/// What the session still owes its viewer: the rest of the replay, then what
/// waits in its feed.
pub open spec fn owed(at: Attached) -> Seq<PlotMessage> {
    at.session.unsent() + at.store.feeds[at.session.slot as int].pending
}

/// A run of one move is that move: it leaves what the move leaves, hands out
/// what the move hands out and publishes what the move publishes.
pub proof fn lemma_single_move(at: Attached, m: Move)
    ensures
        played(at, seq![m]) == moved(at, m),
        transmitted(at, seq![m]) == (match m {
            Move::Report(event) => handed(at.session.advanced(at.store, event).action),
            Move::Store(_) => Seq::<PlotMessage>::empty(),
        }),
        published(seq![m]) == (match m {
            Move::Store(Step::Push(msg)) => seq![msg],
            _ => Seq::<PlotMessage>::empty(),
        }),
{
    let one = seq![m];
    assert(one.drop_last() =~= Seq::<Move>::empty());
    assert(one.last() == m);
    assert(played(at, one.drop_last()) == at);
    assert(transmitted(at, one.drop_last()) =~= Seq::<PlotMessage>::empty());
    assert(published(one.drop_last()) =~= Seq::<PlotMessage>::empty());
    assert(transmitted(at, one) =~= (match m {
        Move::Report(event) => handed(at.session.advanced(at.store, event).action),
        Move::Store(_) => Seq::<PlotMessage>::empty(),
    }));
    assert(published(one) =~= (match m {
        Move::Store(Step::Push(msg)) => seq![msg],
        _ => Seq::<PlotMessage>::empty(),
    }));
}

/// One move of an open session either ends it or keeps the account: what was
/// owed before, followed by what the move published, is what the move handed
/// out followed by what is owed after.
pub proof fn lemma_move_keeps_account(at: Attached, m: Move)
    requires
        at.session.wf(),
        at.store.wf(),
        at.session.open(),
        at.store.subscribed_at(at.session.slot),
        match m {
            Move::Store(step) => foreign(step, at.session.slot),
            Move::Report(event) => event.goes_on(),
        },
    ensures
        moved(at, m).session.wf(),
        moved(at, m).store.wf(),
        moved(at, m).session.slot == at.session.slot,
        moved(at, m).session.open() ==> moved(at, m).store.subscribed_at(at.session.slot),
        keeping_up(moved(at, m)) ==> keeping_up(at) && transmitted(at, seq![m]) + owed(
            moved(at, m),
        ) == owed(at) + published(seq![m]),
{
    let after = moved(at, m);
    let slot = at.session.slot;
    let one = seq![m];
    lemma_single_move(at, m);
    lemma_first_vacant(at.store.feeds, 0);
    assert(at.store.feeds[slot as int].wf());
    match m {
        Move::Store(step) => {
            lemma_step_keeps_bounds(at.store, step);
            if keeping_up(after) {
                assert(transmitted(at, one) + owed(after) =~= owed(at) + published(one));
            }
        },
        Move::Report(event) => {
            let turn = at.session.advanced(at.store, event);
            lemma_step_keeps_bounds(at.store, Step::Poll(slot));
            lemma_step_keeps_bounds(at.store, Step::Unsubscribe(slot));
            if keeping_up(after) {
                assert(handed(turn.action) + owed(after) =~= owed(at));
            }
        },
    }
}

/// Through every run of moves that leaves the session undisturbed, the
/// account is kept: what was owed at the start, followed by everything
/// published since, is what was handed to the transport followed by what is
/// still owed, as long as the viewer keeps up.
pub proof fn lemma_run_keeps_account(at: Attached, moves: Seq<Move>)
    requires
        at.session.wf(),
        at.store.wf(),
        at.session.open(),
        at.store.subscribed_at(at.session.slot),
        undisturbed(moves, at.session.slot),
    ensures
        played(at, moves).session.wf(),
        played(at, moves).store.wf(),
        played(at, moves).session.slot == at.session.slot,
        played(at, moves).session.open() ==> played(at, moves).store.subscribed_at(
            at.session.slot,
        ),
        keeping_up(played(at, moves)) ==> keeping_up(at) && transmitted(at, moves) + owed(
            played(at, moves),
        ) == owed(at) + published(moves),
    decreases moves.len(),
{
    if moves.len() == 0 {
        assert(transmitted(at, moves) + owed(at) =~= owed(at) + published(moves));
    } else {
        let init = moves.drop_last();
        let m = moves.last();
        let before = played(at, init);
        let after = played(at, moves);
        lemma_undisturbed_earlier(moves, at.session.slot);
        lemma_run_keeps_account(at, init);
        if before.session.open() {
            lemma_move_keeps_account(before, m);
            let one = seq![m];
            lemma_single_move(before, m);
            if keeping_up(after) {
                let step_out = transmitted(before, one);
                let step_in = published(one);
                assert(transmitted(at, moves) =~= transmitted(at, init) + step_out);
                assert(published(moves) =~= published(init) + step_in);
                assert(transmitted(at, moves) + owed(after) =~= transmitted(at, init) + (step_out
                    + owed(after)));
                assert(transmitted(at, init) + (owed(before) + step_in) =~= (transmitted(at, init)
                    + owed(before)) + step_in);
                assert((owed(at) + published(init)) + step_in =~= owed(at) + published(moves));
            }
        } else {
            match m {
                Move::Store(step) => {
                    lemma_step_keeps_bounds(before.store, step);
                },
                Move::Report(event) => {},
            }
        }
    }
}

/// A viewer that connects with the right token gets, over its whole session,
/// the history of the moment it connected and then every artifact published
/// after that moment, each exactly once and in push order: at any time, what
/// has been handed to its transport followed by what is still owed to it is
/// that history followed by everything published since. This holds through
/// every interleaving with publishers and other viewers, as long as the
/// transport reports no failure and the viewer keeps up.
pub proof fn lemma_viewer_sees_history_then_live(
    store: StoreView,
    expected: Option<Seq<char>>,
    provided: Option<Seq<char>>,
    moves: Seq<Move>,
)
    requires
        store.wf(),
        authorized(expected, provided),
        undisturbed(moves, store.free_slot()),
    ensures
        ({
            let turn = SessionView::fresh().authorized(store, expected, provided);
            let start = Attached { session: turn.session, store: turn.store };
            keeping_up(played(start, moves)) ==> handed(turn.action) + transmitted(start, moves)
                + owed(played(start, moves)) == store.history + published(moves)
        }),
{
    let turn = SessionView::fresh().authorized(store, expected, provided);
    let start = Attached { session: turn.session, store: turn.store };
    let slot = store.free_slot();
    lemma_first_vacant(store.feeds, 0);
    lemma_step_keeps_bounds(store, Step::Subscribe);
    let joined = store.subscribed();
    assert(joined.subscribed_at(slot));
    assert(joined.feeds[slot as int] == crate::store::FeedView::fresh());
    lemma_step_keeps_bounds(joined, Step::Poll(slot));
    lemma_step_keeps_bounds(joined, Step::Unsubscribe(slot));
    assert(turn.session.slot == slot);
    if turn.session.open() {
        lemma_run_keeps_account(start, moves);
        if keeping_up(played(start, moves)) {
            assert(handed(turn.action) + owed(start) =~= store.history);
            assert(handed(turn.action) + transmitted(start, moves) + owed(played(start, moves))
                =~= handed(turn.action) + (transmitted(start, moves) + owed(played(start, moves))));
            assert(handed(turn.action) + (owed(start) + published(moves)) =~= (handed(turn.action)
                + owed(start)) + published(moves));
        }
    } else {
        lemma_closed_stays_closed(start, moves);
    }
}

/// An undisturbed run is undisturbed up to its last move, and in its last
/// move too.
pub proof fn lemma_undisturbed_earlier(moves: Seq<Move>, slot: nat)
    requires
        moves.len() > 0,
        undisturbed(moves, slot),
    ensures
        undisturbed(moves.drop_last(), slot),
        match moves.last() {
            Move::Store(step) => foreign(step, slot),
            Move::Report(event) => event.goes_on(),
        },
{
    let init = moves.drop_last();
    assert forall|i: int| 0 <= i < init.len() implies match #[trigger] init[i] {
        Move::Store(step) => foreign(step, slot),
        Move::Report(event) => event.goes_on(),
    } by {
        assert(init[i] == moves[i]);
    }
    assert(moves.last() == moves[moves.len() - 1]);
}

/// A viewer keeps up as long as its feed has room for what is published: if
/// what waits in the feed at the start and what a run publishes together fit
/// the feed's capacity, the session is still sending after the run and its
/// feed has not lagged.
pub proof fn lemma_few_publishes_keep_up(at: Attached, moves: Seq<Move>)
    requires
        at.session.wf(),
        at.store.wf(),
        keeping_up(at),
        undisturbed(moves, at.session.slot),
        at.store.feeds[at.session.slot as int].pending.len() + published(moves).len()
            <= FEED_CAPACITY,
    ensures
        keeping_up(played(at, moves)),
        played(at, moves).session.slot == at.session.slot,
        played(at, moves).store.feeds[at.session.slot as int].pending.len()
            <= at.store.feeds[at.session.slot as int].pending.len() + published(moves).len(),
    decreases moves.len(),
{
    if moves.len() > 0 {
        let slot = at.session.slot;
        let init = moves.drop_last();
        let m = moves.last();
        let before = played(at, init);
        lemma_undisturbed_earlier(moves, slot);
        lemma_few_publishes_keep_up(at, init);
        lemma_run_keeps_account(at, init);
        lemma_first_vacant(before.store.feeds, 0);
        assert(before.store.feeds[slot as int].wf());
        match m {
            Move::Store(step) => {
                lemma_step_keeps_bounds(before.store, step);
            },
            Move::Report(event) => {},
        }
    }
}

/// A session that has ended stays ended.
pub proof fn lemma_closed_stays_closed(at: Attached, moves: Seq<Move>)
    requires
        !at.session.open(),
    ensures
        !played(at, moves).session.open(),
    decreases moves.len(),
{
    if moves.len() > 0 {
        lemma_closed_stays_closed(at, moves.drop_last());
    }
}

} // verus!
