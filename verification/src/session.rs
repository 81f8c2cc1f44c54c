//! The viewer session protocol: authorize, replay the history, stream live
//! artifacts, close. The session decides; the caller owns the transport,
//! performs each action and reports back what happened.

use vstd::prelude::*;
use crate::artifact::PlotMessage;
use crate::auth::{authorized, presented_text, token_text, token_valid};
use crate::store::{Delivery, PlotState, StoreView};

verus! {

/// Where a viewer session stands.
#[derive(Clone, Copy, Debug, PartialEq, Eq, Structural)]
pub enum SessionPhase {
    /// Not yet authorized.
    Connecting,
    /// Refused for want of the right token. Terminal.
    Rejected,
    /// Sending the history of the moment of connection.
    Replaying,
    /// Sending artifacts as they are pushed.
    Streaming,
    /// Ended; the subscription is released. Terminal.
    Closed,
}

/// What the transport reports to the session.
#[derive(Clone, Copy, Debug, PartialEq, Eq, Structural)]
pub enum SessionEvent {
    /// The artifact handed out last was transmitted.
    Transmitted,
    /// The artifact handed out last could not be encoded and was skipped.
    Skipped,
    /// The session was woken: an artifact may be waiting.
    Woken,
    /// Writing to the transport failed.
    TransmitFailed,
    /// The remote side closed the transport.
    Disconnected,
}

impl SessionEvent {
    /// Whether the session goes on after this event.
    pub open spec fn goes_on(self) -> bool {
        self is Transmitted || self is Skipped || self is Woken
    }
}

/// What the session asks the transport to do next.
#[derive(Debug, PartialEq, Eq)]
pub enum SessionAction {
    /// Refuse the connection as unauthorized.
    Reject,
    /// Encode this artifact and transmit it as one message.
    Transmit(PlotMessage),
    /// Suspend until woken or until the transport closes.
    Wait,
    /// Send nothing more and release the transport.
    Close,
}

/// A session as mathematics.
pub struct SessionView {
    pub phase: SessionPhase,
    pub slot: nat,
    pub replay: Seq<PlotMessage>,
    pub sent: nat,
}

/// A session, its store and the action that a step of the protocol results
/// in.
pub struct Turn {
    pub session: SessionView,
    pub store: StoreView,
    pub action: SessionAction,
}

impl SessionView {
    /// A session that has not been authorized yet.
    pub open spec fn fresh() -> SessionView {
        SessionView { phase: SessionPhase::Connecting, slot: 0, replay: Seq::empty(), sent: 0 }
    }

    /// The replay cursor stays within the replay, and stands at its end once
    /// the session streams.
    pub open spec fn wf(self) -> bool {
        &&& self.sent <= self.replay.len()
        &&& self.phase is Streaming ==> self.sent == self.replay.len()
    }

    /// Whether the session still sends.
    pub open spec fn open(self) -> bool {
        self.phase is Replaying || self.phase is Streaming
    }

    /// The part of the replay that has not been handed out yet.
    pub open spec fn unsent(self) -> Seq<PlotMessage> {
        self.replay.subrange(self.sent as int, self.replay.len() as int)
    }

    /// The same session in another phase.
    pub open spec fn with_phase(self, phase: SessionPhase) -> SessionView {
        SessionView { phase, slot: self.slot, replay: self.replay, sent: self.sent }
    }

    /// The session ends and gives its subscription back.
    pub open spec fn closed(self, store: StoreView) -> Turn {
        Turn {
            session: self.with_phase(SessionPhase::Closed),
            store: store.unsubscribed(self.slot),
            action: SessionAction::Close,
        }
    }

    /// The next thing to send: the next artifact of the replay while any is
    /// left, then whatever the live feed holds. A feed that lagged or is gone
    /// closes the session.
    pub open spec fn proceed(self, store: StoreView) -> Turn {
        if self.phase is Replaying && self.sent < self.replay.len() {
            Turn {
                session: SessionView {
                    phase: SessionPhase::Replaying,
                    slot: self.slot,
                    replay: self.replay,
                    sent: self.sent + 1,
                },
                store,
                action: SessionAction::Transmit(self.replay[self.sent as int]),
            }
        } else {
            match store.delivery(self.slot) {
                Delivery::Artifact(msg) => Turn {
                    session: self.with_phase(SessionPhase::Streaming),
                    store: store.polled(self.slot),
                    action: SessionAction::Transmit(msg),
                },
                Delivery::Empty => Turn {
                    session: self.with_phase(SessionPhase::Streaming),
                    store,
                    action: SessionAction::Wait,
                },
                _ => self.closed(store),
            }
        }
    }

    /// The session after a connection request that presents `provided` to a
    /// server configured with `expected`.
    pub open spec fn authorized(
        self,
        store: StoreView,
        expected: Option<Seq<char>>,
        provided: Option<Seq<char>>,
    ) -> Turn {
        if !(self.phase is Connecting) {
            Turn { session: self, store, action: SessionAction::Close }
        } else if !authorized(expected, provided) {
            Turn {
                session: self.with_phase(SessionPhase::Rejected),
                store,
                action: SessionAction::Reject,
            }
        } else {
            (SessionView {
                phase: SessionPhase::Replaying,
                slot: store.free_slot(),
                replay: store.history,
                sent: 0,
            }).proceed(store.subscribed())
        }
    }

    /// The session after the transport reported `event`.
    pub open spec fn advanced(self, store: StoreView, event: SessionEvent) -> Turn {
        if !self.open() {
            Turn { session: self, store, action: SessionAction::Close }
        } else if event.goes_on() {
            self.proceed(store)
        } else {
            self.closed(store)
        }
    }
}

/// A connection request is refused exactly when its token does not grant
/// access, and a refused request leaves the store untouched; an accepted one
/// gets a live feed and either the first artifact of the history or, where
/// the history is empty, the word to wait.
pub proof fn lemma_connection_follows_token(
    store: StoreView,
    expected: Option<Seq<char>>,
    provided: Option<Seq<char>>,
)
    requires
        store.wf(),
    ensures
        ({
            let turn = SessionView::fresh().authorized(store, expected, provided);
            if authorized(expected, provided) {
                &&& turn.session.open()
                &&& turn.session.replay == store.history
                &&& turn.store == store.subscribed()
                &&& turn.store.subscribed_at(turn.session.slot)
                &&& turn.action == if store.history.len() > 0 {
                    SessionAction::Transmit(store.history[0])
                } else {
                    SessionAction::Wait
                }
            } else {
                &&& turn.session.phase is Rejected
                &&& turn.store == store
                &&& turn.action == SessionAction::Reject
            }
        }),
{
    crate::trace::lemma_first_vacant(store.feeds, 0);
}

/// One viewer connection.
pub struct Session {
    phase: SessionPhase,
    slot: usize,
    replay: Vec<PlotMessage>,
    sent: usize,
}

impl View for Session {
    type V = SessionView;

    closed spec fn view(&self) -> SessionView {
        SessionView {
            phase: self.phase,
            slot: self.slot as nat,
            replay: self.replay@,
            sent: self.sent as nat,
        }
    }
}

impl Session {
    /// Whether the session keeps its replay cursor within the replay, and at
    /// its end once it streams.
    pub open spec fn wf(&self) -> bool {
        self@.wf()
    }

    /// A session for a connection that has just arrived.
    pub fn new() -> (session: Session)
        ensures
            session@ == SessionView::fresh(),
            session.wf(),
    {
        Session { phase: SessionPhase::Connecting, slot: 0, replay: Vec::new(), sent: 0 }
    }

    /// Where the session stands.
    pub fn phase(&self) -> (phase: SessionPhase)
        ensures
            phase == self@.phase,
    {
        self.phase
    }

    fn close(&mut self, store: &mut PlotState) -> (action: SessionAction)
        requires
            old(self).wf(),
            old(store).wf(),
        ensures
            final(self)@ == old(self)@.closed(old(store)@).session,
            final(store)@ == old(self)@.closed(old(store)@).store,
            action == old(self)@.closed(old(store)@).action,
            final(self).wf(),
            final(store).wf(),
    {
        store.unsubscribe(self.slot);
        self.phase = SessionPhase::Closed;
        SessionAction::Close
    }

    fn proceed(&mut self, store: &mut PlotState) -> (action: SessionAction)
        requires
            old(self).wf(),
            old(self)@.open(),
            old(store).wf(),
        ensures
            final(self)@ == old(self)@.proceed(old(store)@).session,
            final(store)@ == old(self)@.proceed(old(store)@).store,
            action == old(self)@.proceed(old(store)@).action,
            final(self).wf(),
            final(store).wf(),
    {
        if self.phase == SessionPhase::Replaying && self.sent < self.replay.len() {
            let msg = self.replay[self.sent].clone();
            self.sent = self.sent + 1;
            return SessionAction::Transmit(msg);
        }
        match store.poll(self.slot) {
            Delivery::Artifact(msg) => {
                self.phase = SessionPhase::Streaming;
                SessionAction::Transmit(msg)
            },
            Delivery::Empty => {
                self.phase = SessionPhase::Streaming;
                SessionAction::Wait
            },
            _ => self.close(store),
        }
    }

    /// Checks the token of a connection request. A refused request allocates
    /// nothing; an admitted one takes the history snapshot and its live feed
    /// in one step and starts the replay.
    pub fn authorize(
        &mut self,
        store: &mut PlotState,
        expected: &Option<String>,
        provided: Option<&str>,
    ) -> (action: SessionAction)
        requires
            old(self).wf(),
            old(store).wf(),
        ensures
            final(self)@ == old(self)@.authorized(
                old(store)@,
                token_text(*expected),
                presented_text(provided),
            ).session,
            final(store)@ == old(self)@.authorized(
                old(store)@,
                token_text(*expected),
                presented_text(provided),
            ).store,
            action == old(self)@.authorized(
                old(store)@,
                token_text(*expected),
                presented_text(provided),
            ).action,
            final(self).wf(),
            final(store).wf(),
    {
        if self.phase != SessionPhase::Connecting {
            return SessionAction::Close;
        }
        if !token_valid(expected, provided) {
            self.phase = SessionPhase::Rejected;
            return SessionAction::Reject;
        }
        let (slot, history) = store.attach();
        self.phase = SessionPhase::Replaying;
        self.slot = slot;
        self.replay = history;
        self.sent = 0;
        self.proceed(store)
    }

    /// Takes the transport's report and decides what to do next. A failed
    /// write or a closed transport ends the session; anything else sends the
    /// next artifact or waits for one.
    pub fn advance(&mut self, store: &mut PlotState, event: SessionEvent) -> (action: SessionAction)
        requires
            old(self).wf(),
            old(store).wf(),
        ensures
            final(self)@ == old(self)@.advanced(old(store)@, event).session,
            final(store)@ == old(self)@.advanced(old(store)@, event).store,
            action == old(self)@.advanced(old(store)@, event).action,
            final(self).wf(),
            final(store).wf(),
    {
        if self.phase != SessionPhase::Replaying && self.phase != SessionPhase::Streaming {
            return SessionAction::Close;
        }
        match event {
            SessionEvent::Transmitted | SessionEvent::Skipped | SessionEvent::Woken => self.proceed(
                store,
            ),
            _ => self.close(store),
        }
    }
}

} // verus!
