//! The serving lifecycle and the handle through which everything outside the
//! server reaches it: the address, the token, publishing, viewer sessions
//! and shutdown.
//!
//! Binding the listener, serving and joining the serving task are the
//! caller's work. The handle decides what is to be done and records what
//! came of it.

use vstd::prelude::*;
use vstd::string::*;
use crate::artifact::{decode_content, PlotContent, PlotMessage};
use crate::auth::{authorized, presented_text, token_text};
use crate::config::{DEFAULT_HISTORY_LIMIT, DEFAULT_HOST, DEFAULT_PORT};
use crate::outside::random_uuid_simple;
use crate::publish::{enter, publish_handler, publish_submission, PublishError};
use crate::session::{Session, SessionAction, SessionEvent};
use crate::store::{PlotState, StoreView};
use crate::text::{append_decimal, decimal_text};

verus! {

/// What a server is started with.
#[derive(Debug, PartialEq, Eq)]
pub struct ServerConfig {
    pub host: String,
    /// Port 0 asks for an ephemeral port.
    pub port: u16,
    /// The token that requests must present. A server without one is open:
    /// it serves every request, whatever token the request presents.
    pub token: Option<String>,
    pub dist_dir: Option<String>,
    pub history_limit: usize,
}

impl Default for ServerConfig {
    fn default() -> (config: Self)
        ensures
            config.host@ == DEFAULT_HOST@,
            config.port == DEFAULT_PORT,
            config.token is None,
            config.dist_dir is None,
            config.history_limit == DEFAULT_HISTORY_LIMIT,
    {
        ServerConfig {
            host: String::from_str(DEFAULT_HOST),
            port: DEFAULT_PORT,
            token: None,
            dist_dir: None,
            history_limit: DEFAULT_HISTORY_LIMIT,
        }
    }
}

/// Where a server stands in its life.
#[derive(Clone, Copy, Debug, PartialEq, Eq, Structural)]
pub enum Lifecycle {
    Stopped,
    Starting,
    Running,
    Stopping,
}

/// What moves a server from one phase to the next.
#[derive(Clone, Copy, Debug, PartialEq, Eq, Structural)]
pub enum LifecycleEvent {
    /// A start was requested.
    StartRequested,
    /// The listener is bound.
    Bound,
    /// The listener could not be bound.
    BindFailed,
    /// A shutdown was requested.
    ShutdownRequested,
    /// The serving work has ended.
    ServingEnded,
}

/// The phase that follows `phase` on `event`. An event that does not belong
/// to the phase leaves it as it is.
pub open spec fn next_phase(phase: Lifecycle, event: LifecycleEvent) -> Lifecycle {
    match (phase, event) {
        (Lifecycle::Stopped, LifecycleEvent::StartRequested) => Lifecycle::Starting,
        (Lifecycle::Starting, LifecycleEvent::Bound) => Lifecycle::Running,
        (Lifecycle::Starting, LifecycleEvent::BindFailed) => Lifecycle::Stopped,
        (Lifecycle::Running, LifecycleEvent::ShutdownRequested) => Lifecycle::Stopping,
        (Lifecycle::Stopping, LifecycleEvent::ServingEnded) => Lifecycle::Stopped,
        _ => phase,
    }
}

impl Lifecycle {
    /// Moves to the phase that follows on `event`.
    pub fn step(self, event: LifecycleEvent) -> (next: Lifecycle)
        ensures
            next == next_phase(self, event),
    {
        match (self, event) {
            (Lifecycle::Stopped, LifecycleEvent::StartRequested) => Lifecycle::Starting,
            (Lifecycle::Starting, LifecycleEvent::Bound) => Lifecycle::Running,
            (Lifecycle::Starting, LifecycleEvent::BindFailed) => Lifecycle::Stopped,
            (Lifecycle::Running, LifecycleEvent::ShutdownRequested) => Lifecycle::Stopping,
            (Lifecycle::Stopping, LifecycleEvent::ServingEnded) => Lifecycle::Stopped,
            _ => self,
        }
    }
}

/// What came of binding the listener.
#[derive(Debug)]
pub enum BindOutcome {
    /// Host and port do not make an address.
    InvalidAddress,
    /// The address could not be bound.
    Refused,
    /// The listener is bound to this address.
    Bound(String),
}

/// Why no server was started.
#[derive(Clone, Copy, Debug, PartialEq, Eq, Structural)]
pub enum StartError {
    InvalidAddress,
    BindFailed,
}

/// How the serving work ended.
#[derive(Clone, Copy, Debug, PartialEq, Eq, Structural)]
pub enum JoinOutcome {
    /// It ran to its end.
    Clean,
    /// It ended with an error.
    Failed,
    /// It panicked or was cancelled.
    Aborted,
}

/// Why a shutdown could not be confirmed.
#[derive(Clone, Copy, Debug, PartialEq, Eq, Structural)]
pub enum ShutdownError {
    ServeFailed,
    Aborted,
}

/// What a shutdown request asks of the caller.
#[derive(Clone, Copy, Debug, PartialEq, Eq, Structural)]
pub enum ShutdownStep {
    /// Signal the serving work to stop, wait for it to end and report how it
    /// ended.
    SignalAndJoin,
    /// The server is not running: there is nothing to stop.
    Nothing,
}

/// The address text that the listener is to bind: host, colon, port.
pub open spec fn bind_text(host: Seq<char>, port: u16) -> Seq<char> {
    host + ":"@ + decimal_text(port as nat)
}

/// The address that a server with this configuration binds.
pub fn bind_target(config: &ServerConfig) -> (target: String)
    ensures
        target@ == bind_text(config.host@, config.port),
{
    let mut target = config.host.clone();
    target.append(":");
    append_decimal(&mut target, config.port as u64);
    target
}

/// The token for a server that is to be protected in any case: the given
/// one, or a fresh random one of 32 characters where none is given.
pub fn resolve_token(configured: Option<String>) -> (token: String)
    ensures
        match configured {
            Some(given) => token == given,
            None => token@.len() == 32,
        },
{
    match configured {
        Some(given) => given,
        None => random_uuid_simple(),
    }
}

/// The configuration of a server that is started from within another
/// program: the loopback host and an ephemeral port unless told otherwise, the
/// default history limit, no asset directory.
pub fn embedded_config(host: Option<String>, port: Option<u16>, token: Option<String>) -> (config:
    ServerConfig)
    ensures
        match host {
            Some(h) => config.host == h,
            None => config.host@ == DEFAULT_HOST@,
        },
        config.port == (match port {
            Some(p) => p,
            None => 0u16,
        }),
        config.token == token,
        config.dist_dir is None,
        config.history_limit == DEFAULT_HISTORY_LIMIT,
{
    let host = match host {
        Some(h) => h,
        None => String::from_str(DEFAULT_HOST),
    };
    let port = match port {
        Some(p) => p,
        None => 0,
    };
    ServerConfig { host, port, token, dist_dir: None, history_limit: DEFAULT_HISTORY_LIMIT }
}

/// A handle as mathematics.
pub struct HandleView {
    pub store: StoreView,
    pub addr: Seq<char>,
    pub token: Option<Seq<char>>,
    pub phase: Lifecycle,
}

/// The one object through which a started server is used.
pub struct ServerHandle {
    state: PlotState,
    addr: String,
    token: Option<String>,
    phase: Lifecycle,
}

impl View for ServerHandle {
    type V = HandleView;

    closed spec fn view(&self) -> HandleView {
        HandleView {
            store: self.state@,
            addr: self.addr@,
            token: token_text(self.token),
            phase: self.phase,
        }
    }
}

/// Whether `handle` is what a start leaves behind: a running server at
/// `addr` with an empty store of the given limit and with the configured
/// token, or with none where none is configured.
pub open spec fn just_started(
    handle: ServerHandle,
    addr: Seq<char>,
    limit: nat,
    configured: Option<Seq<char>>,
) -> bool {
    &&& handle.wf()
    &&& handle@.addr == addr
    &&& handle@.phase == Lifecycle::Running
    &&& handle@.store == StoreView::fresh(limit)
    &&& handle@.token == configured
}

/// Starts a server on `host` and `port` with every other setting at its
/// default.
pub fn start_server(host: &str, port: u16, bound: BindOutcome) -> (started: Result<
    ServerHandle,
    StartError,
>)
    ensures
        match bound {
            BindOutcome::InvalidAddress => started is Err && started->Err_0
                == StartError::InvalidAddress,
            BindOutcome::Refused => started is Err && started->Err_0 == StartError::BindFailed,
            BindOutcome::Bound(addr) => started is Ok && just_started(
                started->Ok_0,
                addr@,
                DEFAULT_HISTORY_LIMIT as nat,
                None,
            ),
        },
{
    let defaults = ServerConfig::default();
    start_server_with(
        ServerConfig {
            host: String::from_str(host),
            port,
            token: defaults.token,
            dist_dir: defaults.dist_dir,
            history_limit: defaults.history_limit,
        },
        bound,
    )
}

/// Starts a server with `config` once the outcome of binding its listener is
/// known. A failure to bind is final: no handle and no state come of it. On
/// success the handle is running, its store is empty and its token is the
/// configured one; without a configured token the server is open.
pub fn start_server_with(config: ServerConfig, bound: BindOutcome) -> (started: Result<
    ServerHandle,
    StartError,
>)
    ensures
        match bound {
            BindOutcome::InvalidAddress => started is Err && started->Err_0
                == StartError::InvalidAddress,
            BindOutcome::Refused => started is Err && started->Err_0 == StartError::BindFailed,
            BindOutcome::Bound(addr) => started is Ok && just_started(
                started->Ok_0,
                addr@,
                config.history_limit as nat,
                token_text(config.token),
            ),
        },
{
    match bound {
        BindOutcome::InvalidAddress => Err(StartError::InvalidAddress),
        BindOutcome::Refused => Err(StartError::BindFailed),
        BindOutcome::Bound(addr) => {
            let phase = Lifecycle::Stopped.step(LifecycleEvent::StartRequested).step(
                LifecycleEvent::Bound,
            );
            let state = PlotState::new(config.history_limit);
            Ok(ServerHandle { state, addr, token: config.token, phase })
        },
    }
}

impl ServerHandle {
    /// Whether the handle is sound: its store keeps its bounds, and it stands
    /// for a server that did start.
    pub open spec fn wf(&self) -> bool {
        &&& self@.store.wf()
        &&& self@.phase != Lifecycle::Starting
    }

    /// The address the listener is bound to.
    pub fn addr(&self) -> (addr: String)
        ensures
            addr@ == self@.addr,
    {
        self.addr.clone()
    }

    /// The token that requests must present, if the server asks for one.
    pub fn token(&self) -> (token: Option<String>)
        ensures
            token_text(token) == self@.token,
    {
        match &self.token {
            Some(t) => Some(t.clone()),
            None => None,
        }
    }

    /// Where the server stands in its life.
    pub fn phase(&self) -> (phase: Lifecycle)
        ensures
            phase == self@.phase,
    {
        self.phase
    }

    /// The current history, oldest first.
    pub fn history(&self) -> (history: Vec<PlotMessage>)
        ensures
            history@ == self@.store.history,
    {
        self.state.snapshot()
    }

    /// Publishes a finished artifact from within the process: the same store
    /// operation as a submission over the network, without the token check.
    pub fn publish(&mut self, msg: PlotMessage)
        requires
            old(self).wf(),
        ensures
            final(self).wf(),
            final(self)@ == (HandleView { store: old(self)@.store.pushed(msg), ..old(self)@ }),
    {
        let _ = enter(&mut self.state, msg);
    }

    /// Publishes `content` from within the process as a new artifact and
    /// returns the artifact's identifier.
    pub fn enqueue(&mut self, content: PlotContent) -> (id: String)
        requires
            old(self).wf(),
        ensures
            final(self).wf(),
            final(self)@.addr == old(self)@.addr,
            final(self)@.token == old(self)@.token,
            final(self)@.phase == old(self)@.phase,
            id@.len() == 36,
            exists|msg: PlotMessage|
                {
                    &&& msg.content == content
                    &&& msg.id == id
                    &&& #[trigger] old(self)@.store.pushed(msg) == final(self)@.store
                },
    {
        let msg = PlotMessage::new(content);
        let ghost entered = msg;
        let id = enter(&mut self.state, msg);
        assert(old(self)@.store.pushed(entered) == self@.store);
        id
    }

    /// Handles a submission that arrived over the network.
    pub fn submit(&mut self, provided: Option<&str>, content: PlotContent) -> (reply: Result<
        String,
        PublishError,
    >)
        requires
            old(self).wf(),
        ensures
            final(self).wf(),
            final(self)@.addr == old(self)@.addr,
            final(self)@.token == old(self)@.token,
            final(self)@.phase == old(self)@.phase,
            !authorized(old(self)@.token, presented_text(provided)) ==> reply == Err::<
                String,
                PublishError,
            >(PublishError::Unauthorized) && final(self)@ == old(self)@,
            authorized(old(self)@.token, presented_text(provided)) ==> reply is Ok
                && exists|msg: PlotMessage|
                {
                    &&& msg.content == content
                    &&& msg.id == reply->Ok_0
                    &&& msg.id@.len() == 36
                    &&& #[trigger] old(self)@.store.pushed(msg) == final(self)@.store
                },
    {
        publish_handler(&mut self.state, &self.token, provided, content)
    }

    /// Handles a submission as it arrives on the wire: malformed content is
    /// turned away first, a missing or wrong token next; what passes both
    /// enters the store as a new artifact.
    pub fn receive(&mut self, provided: Option<&str>, tag: &str, data: String) -> (reply: Result<
        String,
        PublishError,
    >)
        requires
            old(self).wf(),
        ensures
            final(self).wf(),
            final(self)@.addr == old(self)@.addr,
            final(self)@.token == old(self)@.token,
            final(self)@.phase == old(self)@.phase,
            decode_content(tag@, data@) is None ==> reply == Err::<String, PublishError>(
                PublishError::Malformed,
            ) && final(self)@ == old(self)@,
            decode_content(tag@, data@) is Some && !authorized(
                old(self)@.token,
                presented_text(provided),
            ) ==> reply == Err::<String, PublishError>(PublishError::Unauthorized) && final(self)@
                == old(self)@,
            decode_content(tag@, data@) is Some && authorized(
                old(self)@.token,
                presented_text(provided),
            ) ==> reply is Ok && exists|msg: PlotMessage|
                {
                    &&& Some(msg.content@) == decode_content(tag@, data@)
                    &&& msg.id == reply->Ok_0
                    &&& msg.id@.len() == 36
                    &&& #[trigger] old(self)@.store.pushed(msg) == final(self)@.store
                },
    {
        publish_submission(&mut self.state, &self.token, provided, tag, data)
    }

    /// Checks the token of a viewer's connection request and, if it is the
    /// right one, starts the viewer's session on this server's store.
    pub fn connect(&mut self, session: &mut Session, provided: Option<&str>) -> (action:
        SessionAction)
        requires
            old(self).wf(),
            old(session).wf(),
        ensures
            final(self).wf(),
            final(session).wf(),
            final(self)@ == (HandleView {
                store: old(session)@.authorized(
                    old(self)@.store,
                    old(self)@.token,
                    presented_text(provided),
                ).store,
                ..old(self)@
            }),
            final(session)@ == old(session)@.authorized(
                old(self)@.store,
                old(self)@.token,
                presented_text(provided),
            ).session,
            action == old(session)@.authorized(
                old(self)@.store,
                old(self)@.token,
                presented_text(provided),
            ).action,
    {
        session.authorize(&mut self.state, &self.token, provided)
    }

    /// Takes a report from a viewer's transport and decides what the session
    /// does next.
    pub fn advance(&mut self, session: &mut Session, event: SessionEvent) -> (action:
        SessionAction)
        requires
            old(self).wf(),
            old(session).wf(),
        ensures
            final(self).wf(),
            final(session).wf(),
            final(self)@ == (HandleView {
                store: old(session)@.advanced(old(self)@.store, event).store,
                ..old(self)@
            }),
            final(session)@ == old(session)@.advanced(old(self)@.store, event).session,
            action == old(session)@.advanced(old(self)@.store, event).action,
    {
        session.advance(&mut self.state, event)
    }

    /// Requests the shutdown. A running server goes to `Stopping` and the
    /// caller is asked to signal the serving work and to wait for its end; a
    /// server in any other phase is left as it is.
    pub fn shutdown(&mut self) -> (step: ShutdownStep)
        requires
            old(self).wf(),
        ensures
            final(self).wf(),
            final(self)@ == (HandleView {
                phase: next_phase(old(self)@.phase, LifecycleEvent::ShutdownRequested),
                ..old(self)@
            }),
            step == if old(self)@.phase == Lifecycle::Running {
                ShutdownStep::SignalAndJoin
            } else {
                ShutdownStep::Nothing
            },
    {
        let before = self.phase;
        self.phase = before.step(LifecycleEvent::ShutdownRequested);
        if before == Lifecycle::Running {
            ShutdownStep::SignalAndJoin
        } else {
            ShutdownStep::Nothing
        }
    }

    /// Records that the serving work has ended. A stopping server is stopped
    /// from here on, however the work ended; the result says whether it ended
    /// cleanly. In any other phase nothing changes and nothing is reported.
    pub fn joined(&mut self, outcome: JoinOutcome) -> (result: Result<(), ShutdownError>)
        requires
            old(self).wf(),
        ensures
            final(self).wf(),
            final(self)@ == (HandleView {
                phase: next_phase(old(self)@.phase, LifecycleEvent::ServingEnded),
                ..old(self)@
            }),
            result == shutdown_result(old(self)@.phase, outcome),
    {
        let before = self.phase;
        self.phase = before.step(LifecycleEvent::ServingEnded);
        if before == Lifecycle::Stopping {
            match outcome {
                JoinOutcome::Clean => Ok(()),
                JoinOutcome::Failed => Err(ShutdownError::ServeFailed),
                JoinOutcome::Aborted => Err(ShutdownError::Aborted),
            }
        } else {
            Ok(())
        }
    }
}

/// What a shutdown reports once the serving work has ended.
pub open spec fn shutdown_result(phase: Lifecycle, outcome: JoinOutcome) -> Result<
    (),
    ShutdownError,
> {
    if phase == Lifecycle::Stopping {
        match outcome {
            JoinOutcome::Clean => Ok(()),
            JoinOutcome::Failed => Err(ShutdownError::ServeFailed),
            JoinOutcome::Aborted => Err(ShutdownError::Aborted),
        }
    } else {
        Ok(())
    }
}

/// A shutdown that is requested of a running server and then joined leaves
/// the server stopped, and a second request after that changes nothing.
pub proof fn lemma_shutdown_stops(phase: Lifecycle)
    requires
        phase == Lifecycle::Running,
    ensures
        next_phase(
            next_phase(phase, LifecycleEvent::ShutdownRequested),
            LifecycleEvent::ServingEnded,
        ) == Lifecycle::Stopped,
        next_phase(Lifecycle::Stopped, LifecycleEvent::ShutdownRequested) == Lifecycle::Stopped,
        next_phase(Lifecycle::Stopped, LifecycleEvent::ServingEnded) == Lifecycle::Stopped,
{
}

} // verus!
