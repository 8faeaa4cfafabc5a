//! What the two views that embed a web front end remember and decide.
//!
//! The views themselves hold a server and a window, which are the
//! caller's. What is kept here is the rest: the error that is shown, the
//! path that was last visited, the view's own log and its watch over the
//! indexer.

use crate::modules::explorer::{explorer_start_url, extract_explorer_path, shown_path, start_url};
use crate::modules::k_social::{logged, push_log, MAX_LOG_LINES};
use crate::modules::k_watch::{
    availability, loading, loading_line, note_line, note_of, note_text, server_started,
    server_started_line, view_availability, waiting_after, Availability, ProbeNote, ProbeWatch,
};
use crate::network::Network;
use crate::settings::SelfHostedSettings;
use crate::text::{concat, join, no_pieces, push_text, str_eq, strs, texts};
use std::collections::VecDeque;
use vstd::prelude::*;
use vstd::string::StringExecFns;

verus! {

/// What an optional string says.
pub open spec fn said(o: Option<String>) -> Option<Seq<char>> {
    match o {
        Some(s) => Some(s@),
        None => None,
    }
}

// ---------------------------------------------------------------------------
// The explorer
// ---------------------------------------------------------------------------

/// What the view of the explorer remembers.
#[derive(Clone, Debug, PartialEq, Eq)]
pub struct Explorer {
    /// The address of the local server, once it runs.
    pub server_url: Option<String>,
    /// The path that the front end showed last.
    pub last_path: Option<String>,
    /// The error that is shown in place of the front end.
    pub status: Option<String>,
}

/// What a visit of `current_url` leaves behind: the path that was shown
/// last, the path that the settings hold, and whether the settings are
/// to be stored. An address that is not the server's changes nothing,
/// nor does the path that was shown last.
pub open spec fn visit(
    server: Option<Seq<char>>,
    last: Option<Seq<char>>,
    stored: Seq<char>,
    current_url: Seq<char>,
) -> (Option<Seq<char>>, Seq<char>, bool) {
    match server {
        Some(base) => match shown_path(current_url, base) {
            Some(path) => if last == Some(path) {
                (last, stored, false)
            } else {
                (Some(path), path, stored != path)
            },
            None => (last, stored, false),
        },
        None => (last, stored, false),
    }
}

/// What is shown where the window could not be made.
pub open spec fn explorer_window_error(error: Seq<char>) -> Seq<char> {
    concat(seq!["Explorer WebView error: "@, error])
}

impl Explorer {
    /// A view that has started nothing yet.
    pub fn new() -> (v: Self)
        ensures
            v.server_url is None,
            v.last_path is None,
            v.status is None,
    {
        Explorer { server_url: None, last_path: None, status: None }
    }

    /// The title of the view.
    pub fn name(&self) -> (r: &'static str)
        ensures
            r@ == "Explorer"@,
    {
        "Explorer"
    }

    /// Whether the local server is started when the view is opened: none
    /// runs, and no earlier start has failed.
    pub fn wants_server(&self) -> (b: bool)
        ensures
            b == (self.server_url is None && self.status is None),
    {
        self.server_url.is_none() && self.status.is_none()
    }

    /// Takes note of the server that was started.
    pub fn server_started(&mut self, url: String)
        ensures
            final(self).server_url == Some(url),
            final(self).last_path == old(self).last_path,
            final(self).status == old(self).status,
    {
        self.server_url = Some(url);
    }

    /// Takes note of the error with which the server did not start.
    pub fn server_failed(&mut self, error: String)
        ensures
            final(self).status == Some(error),
            final(self).server_url == old(self).server_url,
            final(self).last_path == old(self).last_path,
    {
        self.status = Some(error);
    }

    /// The address that the front end is opened at: the path that the
    /// settings hold, on the local server. `None` while no server runs.
    pub fn start_url(&self, stored_path: &str) -> (r: Option<String>)
        ensures
            match r {
                Some(url) => self.server_url matches Some(server) && url@ == start_url(
                    server@,
                    stored_path@,
                ),
                None => self.server_url is None,
            },
    {
        match &self.server_url {
            Some(server) => Some(explorer_start_url(server.as_str(), stored_path)),
            None => None,
        }
    }

    /// Takes note that the front end was opened at the path that the
    /// settings hold.
    pub fn attached(&mut self, stored_path: &str)
        ensures
            said(final(self).last_path) == Some(stored_path@),
            final(self).server_url == old(self).server_url,
            final(self).status == old(self).status,
    {
        self.last_path = Some(String::from_str(stored_path));
    }

    /// Takes note that the window could not be made.
    pub fn window_failed(&mut self, error: &str)
        ensures
            said(final(self).status) == Some(explorer_window_error(error@)),
            final(self).server_url == old(self).server_url,
            final(self).last_path == old(self).last_path,
    {
        let mut p = no_pieces();
        push_text(&mut p, "Explorer WebView error: ");
        push_text(&mut p, error);
        assert(texts(p@) =~= seq!["Explorer WebView error: "@, error@]);
        self.status = Some(join(&p));
    }

    /// Takes note of the address that the front end shows. A path that
    /// was not shown last is remembered and written to `stored_path`.
    /// Answers whether the settings are to be stored: the path in them
    /// has changed.
    pub fn visited(&mut self, current_url: &str, stored_path: &mut String) -> (store: bool)
        ensures
            (said(final(self).last_path), final(stored_path)@, store) == visit(
                said(old(self).server_url),
                said(old(self).last_path),
                old(stored_path)@,
                current_url@,
            ),
            final(self).server_url == old(self).server_url,
            final(self).status == old(self).status,
    {
        let path = match &self.server_url {
            Some(server) => extract_explorer_path(current_url, server.as_str()),
            None => None,
        };
        match path {
            Some(path) => {
                let same = match &self.last_path {
                    Some(last) => str_eq(last.as_str(), path.as_str()),
                    None => false,
                };
                if same {
                    false
                } else {
                    let store = !str_eq(stored_path.as_str(), path.as_str());
                    self.last_path = Some(path.clone());
                    *stored_path = path;
                    store
                }
            },
            None => false,
        }
    }
}

// ---------------------------------------------------------------------------
// The social front end
// ---------------------------------------------------------------------------

/// The lines of a log after `line` was added: the newest
/// [`MAX_LOG_LINES`] of them.
pub open spec fn logged_text(lines: Seq<Seq<char>>, line: Seq<char>) -> Seq<Seq<char>> {
    let all = lines.push(line);
    if all.len() > MAX_LOG_LINES {
        all.skip(all.len() - MAX_LOG_LINES)
    } else {
        all
    }
}

/// Adds a line to a view's log.
fn log_line(logs: &mut VecDeque<String>, message: String)
    ensures
        strs(final(logs)@) == logged_text(strs(old(logs)@), message@),
{
    push_log(logs, message);
    assert(strs(logs@) =~= logged_text(strs(old(logs)@), message@));
}

/// Adds a line that is known beforehand to a view's log.
fn log_text(logs: &mut VecDeque<String>, message: &str)
    ensures
        strs(final(logs)@) == logged_text(strs(old(logs)@), message@),
{
    log_line(logs, String::from_str(message));
}

/// What the view of the social front end remembers.
#[derive(Clone, Debug, PartialEq, Eq)]
pub struct KSocial {
    /// The tests of the indexer.
    pub watch: ProbeWatch,
    /// The error that is shown above the front end.
    pub status: Option<String>,
    /// What the view did, the newest lines last.
    pub logs: VecDeque<String>,
}

/// The line that the view's log gets where it cannot be opened.
pub open spec fn blocked_line(a: Availability) -> Option<Seq<char>> {
    match a.words() {
        Some(w) => Some(w.1),
        None => None,
    }
}

/// What is shown where the view cannot be opened.
pub open spec fn blocked_status(a: Availability) -> Option<Seq<char>> {
    match a.words() {
        Some(w) => Some(w.0),
        None => None,
    }
}

/// The log after the view was opened.
pub open spec fn activated_log(logs: Seq<Seq<char>>, a: Availability) -> Seq<Seq<char>> {
    let asked = logged_text(logs, "K-Social: activate requested"@);
    match blocked_line(a) {
        Some(line) => logged_text(asked, line),
        None => asked,
    }
}

/// What is shown where the window could not be made.
pub open spec fn social_window_error(error: Seq<char>) -> Seq<char> {
    concat(seq!["K-Social WebView error: "@, error])
}

/// The line that the view's log gets where the window could not be made.
pub open spec fn social_window_error_line(error: Seq<char>) -> Seq<char> {
    concat(seq!["K-Social: WebView error ("@, error, ")"@])
}

impl KSocial {
    /// A view that has done nothing yet.
    pub fn new() -> (v: Self)
        ensures
            v.watch == ProbeWatch::blank(),
            v.status is None,
            v.logs@ == Seq::<String>::empty(),
    {
        KSocial { watch: ProbeWatch::new(), status: None, logs: VecDeque::new() }
    }

    /// The title of the view.
    pub fn name(&self) -> (r: &'static str)
        ensures
            r@ == "K-Social"@,
    {
        "K-Social"
    }

    /// Adds a line to the view's log.
    pub fn push_log(&mut self, message: String)
        ensures
            final(self).logs@ == logged(old(self).logs@, message),
            final(self).watch == old(self).watch,
            final(self).status == old(self).status,
    {
        push_log(&mut self.logs, message);
    }

    /// Opens the view. Where the view is not available, the reason is
    /// shown and the wait for the indexer is forgotten; the caller closes
    /// the window and the server of a view that is for the main network
    /// only. Where it is available, the error that was shown is cleared.
    pub fn activate(&mut self, network: Network, settings: &SelfHostedSettings) -> (a: Availability)
        ensures
            a == availability(network, settings.enabled, settings.k_enabled),
            strs(final(self).logs@) == activated_log(strs(old(self).logs@), a),
            said(final(self).status) == blocked_status(a),
            final(self).watch.last_probe_at == old(self).watch.last_probe_at,
            final(self).watch.last_probe_ok == old(self).watch.last_probe_ok,
            a != Availability::Available ==> final(self).watch.last_probe_status is None
                && final(self).watch.waiting_since is None,
            a == Availability::Available ==> final(self).watch == old(self).watch,
    {
        log_text(&mut self.logs, "K-Social: activate requested");
        let a = view_availability(network, settings);
        match a.blocked() {
            Some((status, line)) => {
                self.status = Some(String::from_str(status));
                self.watch.last_probe_status = None;
                self.watch.waiting_since = None;
                log_text(&mut self.logs, line);
            },
            None => {
                self.status = None;
            },
        }
        a
    }

    /// Forgets the tests of the indexer: the services are switched off.
    pub fn services_off(&mut self)
        ensures
            final(self).watch == ProbeWatch::blank(),
            final(self).status == old(self).status,
            final(self).logs == old(self).logs,
    {
        self.watch.reset();
    }

    /// Takes note of a test of the indexer at `host` and `port`, made at
    /// `now`. A result that differs from the last one is written to the
    /// view's log.
    pub fn probed(&mut self, now: u64, ok: bool, status: String, host: &str, port: u16) -> (note:
        Option<ProbeNote>)
        ensures
            note == note_of(old(self).watch.last_probe_ok, ok),
            final(self).watch.last_probe_at == Some(now),
            final(self).watch.last_probe_ok == Some(ok),
            final(self).watch.last_probe_status == Some(status),
            final(self).watch.waiting_since == waiting_after(
                old(self).watch.waiting_since,
                old(self).watch.last_probe_ok,
                now,
                ok,
            ),
            strs(final(self).logs@) == match note {
                Some(n) => logged_text(strs(old(self).logs@), note_text(n, host@, port)),
                None => strs(old(self).logs@),
            },
            final(self).status == old(self).status,
    {
        let note = self.watch.record(now, ok, status);
        if let Some(n) = note {
            log_line(&mut self.logs, note_line(n, host, port));
        }
        note
    }

    /// Takes note of the local server that was started.
    pub fn server_started(&mut self, host: &str, port: u16, api_host: &str, api_port: u16)
        ensures
            strs(final(self).logs@) == logged_text(
                strs(old(self).logs@),
                server_started(host@, port, api_host@, api_port),
            ),
            final(self).watch == old(self).watch,
            final(self).status == old(self).status,
    {
        log_line(&mut self.logs, server_started_line(host, port, api_host, api_port));
    }

    /// Takes note of the error with which the local server did not
    /// start.
    pub fn server_failed(&mut self, error: String)
        ensures
            final(self).status == Some(error),
            strs(final(self).logs@) == logged_text(
                strs(old(self).logs@),
                "K-Social: local web server failed to start"@,
            ),
            final(self).watch == old(self).watch,
    {
        self.status = Some(error);
        log_text(&mut self.logs, "K-Social: local web server failed to start");
    }

    /// Takes note that the front end is loaded for the indexer at `host`
    /// and `port`.
    pub fn loading(&mut self, host: &str, port: u16)
        ensures
            strs(final(self).logs@) == logged_text(strs(old(self).logs@), loading(host@, port)),
            final(self).watch == old(self).watch,
            final(self).status == old(self).status,
    {
        log_line(&mut self.logs, loading_line(host, port));
    }

    /// Takes note that the window shows the front end: no error is
    /// shown any more, and nothing is waited for.
    pub fn attached(&mut self)
        ensures
            final(self).status is None,
            final(self).watch.waiting_since is None,
            final(self).watch.last_probe_at == old(self).watch.last_probe_at,
            final(self).watch.last_probe_ok == old(self).watch.last_probe_ok,
            final(self).watch.last_probe_status == old(self).watch.last_probe_status,
            strs(final(self).logs@) == logged_text(
                strs(old(self).logs@),
                "K-Social: WebView attached"@,
            ),
    {
        self.status = None;
        self.watch.waiting_since = None;
        log_text(&mut self.logs, "K-Social: WebView attached");
    }

    /// Takes note that the window could not be made.
    pub fn window_failed(&mut self, error: &str)
        ensures
            said(final(self).status) == Some(social_window_error(error@)),
            strs(final(self).logs@) == logged_text(
                strs(old(self).logs@),
                social_window_error_line(error@),
            ),
            final(self).watch == old(self).watch,
    {
        let mut p = no_pieces();
        push_text(&mut p, "K-Social WebView error: ");
        push_text(&mut p, error);
        assert(texts(p@) =~= seq!["K-Social WebView error: "@, error@]);
        self.status = Some(join(&p));
        let mut q = no_pieces();
        push_text(&mut q, "K-Social: WebView error (");
        push_text(&mut q, error);
        push_text(&mut q, ")");
        assert(texts(q@) =~= seq!["K-Social: WebView error ("@, error@, ")"@]);
        log_line(&mut self.logs, join(&q));
    }
}

/// The view's log never holds more than [`MAX_LOG_LINES`] lines, and
/// the line that was added last is its last line.
pub proof fn lemma_view_log_is_bounded(lines: Seq<Seq<char>>, line: Seq<char>)
    requires
        lines.len() <= MAX_LOG_LINES,
    ensures
        logged_text(lines, line).len() <= MAX_LOG_LINES,
        logged_text(lines, line).len() > 0,
        logged_text(lines, line).last() == line,
{
}

} // verus!
