//! The decisions of the command line: what to report and what to do, given
//! the record of a server that may be running and the answer to a liveness
//! probe. Reading and writing the record, probing, signalling and printing
//! are the caller's work.

use vstd::prelude::*;
use vstd::string::*;
use crate::auth::token_text;
use crate::config::Config;
use crate::server::{bind_text, ServerConfig};
use crate::text::{append_decimal, decimal_text};

verus! {

/// The record that a serving process leaves for other invocations: who
/// serves, where, and with which token.
#[derive(Debug, PartialEq, Eq)]
pub struct ServerState {
    pub pid: u32,
    pub addr: String,
    pub token: Option<String>,
}

/// What the `serve` command was given on the command line. Every flag that is
/// present overrides the configuration file.
#[derive(Debug, PartialEq, Eq)]
pub struct ServeFlags {
    pub host: Option<String>,
    pub port: Option<u16>,
    pub token: Option<String>,
    pub dist_dir: Option<String>,
    pub open_browser: Option<bool>,
    pub history_limit: Option<usize>,
}

/// What the `serve` command runs with.
#[derive(Debug, PartialEq, Eq)]
pub struct ServeSettings {
    pub server: ServerConfig,
    pub open_browser: bool,
}

/// What a command asks its caller to do once the lines are printed.
#[derive(Debug, PartialEq, Eq)]
pub enum FollowUp {
    /// Nothing more.
    Nothing,
    /// Open this address in a browser.
    OpenBrowser(String),
    /// Send the termination signal to this process.
    Signal(u32),
}

/// The outcome of a command's decision: the lines to print, whether the
/// record is stale and to be removed, and what to do next.
#[derive(Debug, PartialEq, Eq)]
pub struct Outcome {
    pub lines: Vec<String>,
    pub remove_record: bool,
    pub next: FollowUp,
}

/// The lines of an outcome, as mathematics, are the texts of its strings in
/// order.
pub proof fn lemma_lines_view(lines: Vec<String>)
    ensures
        lines.deep_view() == Seq::new(lines@.len(), |i: int| lines@[i]@),
{
    assert(lines.deep_view() =~= Seq::new(lines@.len(), |i: int| lines@[i]@));
}

/// The address at which a viewer opens the server.
pub open spec fn url_text(addr: Seq<char>, token: Option<Seq<char>>) -> Seq<char> {
    match token {
        Some(t) => "http://"@ + addr + "/?token="@ + t,
        None => "http://"@ + addr + "/"@,
    }
}

/// The address of the liveness probe.
pub open spec fn health_text(addr: Seq<char>) -> Seq<char> {
    "http://"@ + addr + "/health"@
}

/// `prefix` followed by `rest`.
pub fn labelled(prefix: &str, rest: &str) -> (text: String)
    ensures
        text@ == prefix@ + rest@,
{
    let mut text = String::from_str(prefix);
    text.append(rest);
    text
}

/// `prefix` followed by the decimal numeral of `n`.
pub fn numbered_line(prefix: &str, n: u32) -> (text: String)
    ensures
        text@ == prefix@ + decimal_text(n as nat),
{
    let mut text = String::from_str(prefix);
    append_decimal(&mut text, n as u64);
    text
}

/// The address at which a viewer opens the server at `addr`, with the token
/// in the query where there is one.
pub fn viewer_url(addr: &str, token: Option<&str>) -> (url: String)
    ensures
        url@ == url_text(
            addr@,
            match token {
                Some(t) => Some(t@),
                None => None,
            },
        ),
{
    let mut url = String::from_str("http://");
    url.append(addr);
    match token {
        Some(t) => {
            url.append("/?token=");
            url.append(t);
        },
        None => {
            url.append("/");
        },
    }
    url
}

/// The address that a liveness probe of the server at `addr` asks.
pub fn health_url(addr: &str) -> (url: String)
    ensures
        url@ == health_text(addr@),
{
    let mut url = String::from_str("http://");
    url.append(addr);
    url.append("/health");
    url
}

fn token_of(state: &ServerState) -> (token: Option<&str>)
    ensures
        match token {
            Some(t) => state.token is Some && t@ == state.token->Some_0@,
            None => state.token is None,
        },
{
    match &state.token {
        Some(t) => Some(t.as_str()),
        None => None,
    }
}

/// The settings of a `serve` command: each flag where it is given, the
/// configuration file's value where it is not. Token and asset directory come
/// from the flags alone.
pub fn resolve_settings(flags: ServeFlags, config: Config) -> (settings: ServeSettings)
    ensures
        settings.server.host == (match flags.host {
            Some(h) => h,
            None => config.server.host,
        }),
        settings.server.port == (match flags.port {
            Some(p) => p,
            None => config.server.port,
        }),
        settings.server.token == flags.token,
        settings.server.dist_dir == flags.dist_dir,
        settings.server.history_limit == (match flags.history_limit {
            Some(l) => l,
            None => config.server.history_limit,
        }),
        settings.open_browser == (match flags.open_browser {
            Some(o) => o,
            None => config.server.open_browser,
        }),
{
    let host = match flags.host {
        Some(h) => h,
        None => config.server.host,
    };
    let port = match flags.port {
        Some(p) => p,
        None => config.server.port,
    };
    let history_limit = match flags.history_limit {
        Some(l) => l,
        None => config.server.history_limit,
    };
    let open_browser = match flags.open_browser {
        Some(o) => o,
        None => config.server.open_browser,
    };
    ServeSettings {
        server: ServerConfig {
            host,
            port,
            token: flags.token,
            dist_dir: flags.dist_dir,
            history_limit,
        },
        open_browser,
    }
}

/// The record that a serving process writes before it starts: its own
/// process, the address it is about to bind and its token.
pub fn serve_record(pid: u32, host: &str, port: u16, token: &Option<String>) -> (state:
    ServerState)
    ensures
        state.pid == pid,
        state.addr@ == bind_text(host@, port),
        state.token == *token,
{
    let mut addr = String::from_str(host);
    addr.append(":");
    append_decimal(&mut addr, port as u64);
    let token = match token {
        Some(t) => Some(t.clone()),
        None => None,
    };
    ServerState { pid, addr, token }
}

/// How the `serve` command begins.
#[derive(Debug, PartialEq, Eq)]
pub enum ServeEntry {
    /// A server is running already: print this line and end.
    AlreadyRunning(String),
    /// Start a server, after removing the record of one that no longer
    /// answers where there is such a record.
    Start { remove_stale: bool },
}

/// Decides how `serve` begins, given the record found (if any) and whether
/// the server it names answered the probe. One unanswered probe is enough to
/// call a record stale.
pub fn serve_entry(state: Option<&ServerState>, alive: bool) -> (entry: ServeEntry)
    ensures
        match state {
            Some(s) => if alive {
                entry is AlreadyRunning && entry->AlreadyRunning_0@
                    == "Server already running at http://"@ + s.addr@
            } else {
                entry == (ServeEntry::Start { remove_stale: true })
            },
            None => entry == (ServeEntry::Start { remove_stale: false }),
        },
{
    match state {
        Some(s) => {
            if alive {
                ServeEntry::AlreadyRunning(
                    labelled("Server already running at http://", s.addr.as_str()),
                )
            } else {
                ServeEntry::Start { remove_stale: true }
            }
        },
        None => ServeEntry::Start { remove_stale: false },
    }
}

/// The lines that announce a started server.
pub open spec fn started_lines(addr: Seq<char>, token: Option<Seq<char>>) -> Seq<Seq<char>> {
    match token {
        Some(t) => seq![
            "RileyViewer server started"@,
            "  Address: http://"@ + addr,
            "  Token: "@ + t,
            "  URL: "@ + url_text(addr, token),
            ""@,
            "Press Ctrl+C to stop."@,
        ],
        None => seq![
            "RileyViewer server started"@,
            "  Address: http://"@ + addr,
            ""@,
            "Press Ctrl+C to stop."@,
        ],
    }
}

/// Announces a started server and, where asked, has a browser opened at it.
pub fn serve_started(addr: &str, token: Option<&str>, open_browser: bool) -> (outcome: Outcome)
    ensures
        outcome.lines.deep_view() == started_lines(
            addr@,
            match token {
                Some(t) => Some(t@),
                None => None,
            },
        ),
        !outcome.remove_record,
        match outcome.next {
            FollowUp::OpenBrowser(url) => open_browser && url@ == url_text(
                addr@,
                match token {
                    Some(t) => Some(t@),
                    None => None,
                },
            ),
            FollowUp::Nothing => !open_browser,
            FollowUp::Signal(_) => false,
        },
{
    let url = viewer_url(addr, token);
    let mut lines: Vec<String> = Vec::new();
    lines.push(String::from_str("RileyViewer server started"));
    lines.push(labelled("  Address: http://", addr));
    match token {
        Some(t) => {
            lines.push(labelled("  Token: ", t));
            lines.push(labelled("  URL: ", url.as_str()));
        },
        None => {},
    }
    lines.push(String::from_str(""));
    lines.push(String::from_str("Press Ctrl+C to stop."));
    proof {
        lemma_lines_view(lines);
        assert(lines.deep_view() =~= started_lines(
            addr@,
            match token {
                Some(t) => Some(t@),
                None => None,
            },
        ));
    }
    let next = if open_browser {
        FollowUp::OpenBrowser(url)
    } else {
        FollowUp::Nothing
    };
    Outcome { lines, remove_record: false, next }
}

/// The lines of the `status` command.
pub open spec fn status_lines(state: Option<ServerState>, alive: bool) -> Seq<Seq<char>> {
    match state {
        None => seq!["Server not running"@],
        Some(s) => if !alive {
            seq!["Server not running (stale state file)"@]
        } else {
            match s.token {
                Some(t) => seq![
                    "Server running"@,
                    "  PID: "@ + decimal_text(s.pid as nat),
                    "  Address: http://"@ + s.addr@,
                    "  Token: "@ + t@,
                    "  URL: "@ + url_text(s.addr@, Some(t@)),
                ],
                None => seq![
                    "Server running"@,
                    "  PID: "@ + decimal_text(s.pid as nat),
                    "  Address: http://"@ + s.addr@,
                ],
            }
        },
    }
}

/// Reports whether a server is running. A record whose server does not
/// answer is stale and is removed.
pub fn status(state: Option<&ServerState>, alive: bool) -> (outcome: Outcome)
    ensures
        outcome.lines.deep_view() == status_lines(
            match state {
                Some(s) => Some(*s),
                None => None,
            },
            alive,
        ),
        outcome.remove_record == (state is Some && !alive),
        outcome.next == FollowUp::Nothing,
{
    let mut lines: Vec<String> = Vec::new();
    let mut remove_record = false;
    match state {
        None => {
            lines.push(String::from_str("Server not running"));
        },
        Some(s) => {
            if alive {
                lines.push(String::from_str("Server running"));
                lines.push(numbered_line("  PID: ", s.pid));
                lines.push(labelled("  Address: http://", s.addr.as_str()));
                match token_of(s) {
                    Some(t) => {
                        lines.push(labelled("  Token: ", t));
                        let url = viewer_url(s.addr.as_str(), Some(t));
                        lines.push(labelled("  URL: ", url.as_str()));
                    },
                    None => {},
                }
            } else {
                lines.push(String::from_str("Server not running (stale state file)"));
                remove_record = true;
            }
        },
    }
    proof {
        lemma_lines_view(lines);
        assert(lines.deep_view() =~= status_lines(
            match state {
                Some(s) => Some(*s),
                None => None,
            },
            alive,
        ));
    }
    Outcome { lines, remove_record, next: FollowUp::Nothing }
}

/// The lines with which the `stop` command begins.
pub open spec fn stop_lines(state: Option<ServerState>, alive: bool) -> Seq<Seq<char>> {
    match state {
        None => seq!["No server state found"@],
        Some(s) => if alive {
            Seq::empty()
        } else {
            seq!["Server not running"@]
        },
    }
}

/// Begins the `stop` command: a server that answers is sent the termination
/// signal; a record whose server does not answer is removed.
pub fn stop(state: Option<&ServerState>, alive: bool) -> (outcome: Outcome)
    ensures
        outcome.lines.deep_view() == stop_lines(
            match state {
                Some(s) => Some(*s),
                None => None,
            },
            alive,
        ),
        outcome.remove_record == (state is Some && !alive),
        outcome.next == (match state {
            Some(s) => if alive {
                FollowUp::Signal(s.pid)
            } else {
                FollowUp::Nothing
            },
            None => FollowUp::Nothing,
        }),
{
    let mut lines: Vec<String> = Vec::new();
    let mut remove_record = false;
    let mut next = FollowUp::Nothing;
    match state {
        None => {
            lines.push(String::from_str("No server state found"));
        },
        Some(s) => {
            if alive {
                next = FollowUp::Signal(s.pid);
            } else {
                lines.push(String::from_str("Server not running"));
                remove_record = true;
            }
        },
    }
    proof {
        lemma_lines_view(lines);
        assert(lines.deep_view() =~= stop_lines(
            match state {
                Some(s) => Some(*s),
                None => None,
            },
            alive,
        ));
    }
    Outcome { lines, remove_record, next }
}

/// The line that says whether the termination signal was sent.
pub open spec fn signal_line(pid: u32, sent: bool) -> Seq<char> {
    if sent {
        "Sent stop signal to server (PID "@ + decimal_text(pid as nat) + ")"@
    } else {
        "Failed to send signal to PID "@ + decimal_text(pid as nat)
    }
}

/// Reports whether the termination signal was sent to the process.
pub fn stop_signalled(pid: u32, sent: bool) -> (text: String)
    ensures
        text@ == signal_line(pid, sent),
{
    if sent {
        let mut text = numbered_line("Sent stop signal to server (PID ", pid);
        text.append(")");
        text
    } else {
        numbered_line("Failed to send signal to PID ", pid)
    }
}

/// Ends the `stop` command after the signal was sent and the server was
/// probed once more: a server that no longer answers has stopped, and its
/// record is removed.
pub fn stop_confirmed(alive: bool) -> (outcome: Outcome)
    ensures
        outcome.lines.deep_view() == if alive {
            seq!["Server still running, may need manual kill"@]
        } else {
            seq!["Server stopped"@]
        },
        outcome.remove_record == !alive,
        outcome.next == FollowUp::Nothing,
{
    let mut lines: Vec<String> = Vec::new();
    if alive {
        lines.push(String::from_str("Server still running, may need manual kill"));
    } else {
        lines.push(String::from_str("Server stopped"));
    }
    proof {
        lemma_lines_view(lines);
        assert(lines.deep_view() =~= if alive {
            seq!["Server still running, may need manual kill"@]
        } else {
            seq!["Server stopped"@]
        });
    }
    Outcome { lines, remove_record: !alive, next: FollowUp::Nothing }
}

/// The lines of the `open` command.
pub open spec fn open_lines(state: Option<ServerState>, alive: bool) -> Seq<Seq<char>> {
    match state {
        None => seq!["No server running. Start one with: rileyviewer serve"@],
        Some(s) => if alive {
            seq!["Opening "@ + url_text(s.addr@, token_text(s.token))]
        } else {
            seq!["Server not running"@]
        },
    }
}

/// Opens a browser at a server that answers; a record whose server does not
/// answer is removed.
pub fn open(state: Option<&ServerState>, alive: bool) -> (outcome: Outcome)
    ensures
        outcome.lines.deep_view() == open_lines(
            match state {
                Some(s) => Some(*s),
                None => None,
            },
            alive,
        ),
        outcome.remove_record == (state is Some && !alive),
        match state {
            Some(s) => if alive {
                outcome.next is OpenBrowser && outcome.next->OpenBrowser_0@ == url_text(
                    s.addr@,
                    token_text(s.token),
                )
            } else {
                outcome.next == FollowUp::Nothing
            },
            None => outcome.next == FollowUp::Nothing,
        },
{
    let mut lines: Vec<String> = Vec::new();
    let mut remove_record = false;
    let mut next = FollowUp::Nothing;
    match state {
        None => {
            lines.push(String::from_str("No server running. Start one with: rileyviewer serve"));
        },
        Some(s) => {
            if alive {
                let url = viewer_url(s.addr.as_str(), token_of(s));
                lines.push(labelled("Opening ", url.as_str()));
                next = FollowUp::OpenBrowser(url);
            } else {
                lines.push(String::from_str("Server not running"));
                remove_record = true;
            }
        },
    }
    proof {
        lemma_lines_view(lines);
        assert(lines.deep_view() =~= open_lines(
            match state {
                Some(s) => Some(*s),
                None => None,
            },
            alive,
        ));
    }
    Outcome { lines, remove_record, next }
}

} // verus!
