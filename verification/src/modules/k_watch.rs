//! What the social view decides before it shows the front end: whether
//! the view is available at all, when the indexer is tested again, and
//! what the operator is told while the indexer is waited for.

use crate::network::Network;
use crate::settings::SelfHostedSettings;
use crate::text::{
    chars_of, concat, decimal, join, no_pieces, push_number, push_text, str_eq, string_of, texts,
};
use vstd::prelude::*;
use vstd::string::StringExecFns;

verus! {

/// Milliseconds between two tests of the indexer.
pub const PROBE_INTERVAL_MS: u64 = 2000;

/// Seconds after which a wait is called long.
pub const SLOW_START_SECS: u64 = 30;

/// The address of the node where the node gives none.
pub const DEFAULT_NODE_URL: &'static str = "ws://127.0.0.1:17110";

pub const MAINNET_ONLY: &'static str = "K-Social is available only on Mainnet.";

pub const DISABLED: &'static str = "K-Social is disabled in Settings.";

pub const ENABLE_HINT: &'static str = "Enable K-Social services in Settings.";

pub const STILL_INITIALIZING: &'static str =
    "K-indexer is still initializing. K-Social will auto-attach when ready.";

pub const SERVER_UNAVAILABLE: &'static str = "K-Social local web server is not available.";

/// Whether the view can be shown.
#[derive(Clone, Copy, Debug, PartialEq, Eq, Structural)]
pub enum Availability {
    /// The node is on a network other than the main one.
    MainnetOnly,
    /// The self-hosted services or the social indexer are switched off.
    Disabled,
    Available,
}

/// Whether the view can be shown. The network is looked at first.
pub open spec fn availability(network: Network, enabled: bool, k_enabled: bool) -> Availability {
    if network != Network::Mainnet {
        Availability::MainnetOnly
    } else if !enabled || !k_enabled {
        Availability::Disabled
    } else {
        Availability::Available
    }
}

pub fn view_availability(network: Network, settings: &SelfHostedSettings) -> (a: Availability)
    ensures
        a == availability(network, settings.enabled, settings.k_enabled),
{
    match network {
        Network::Mainnet => {
            if !settings.enabled || !settings.k_enabled {
                Availability::Disabled
            } else {
                Availability::Available
            }
        },
        _ => Availability::MainnetOnly,
    }
}

impl Availability {
    /// What the operator is told where the view cannot be shown, and the
    /// line that the view's log gets.
    pub open spec fn words(self) -> Option<(Seq<char>, Seq<char>)> {
        match self {
            Availability::MainnetOnly => Some(
                (MAINNET_ONLY@, "K-Social: blocked (Mainnet only)"@),
            ),
            Availability::Disabled => Some(
                (DISABLED@, "K-Social: blocked (disabled in Settings)"@),
            ),
            Availability::Available => None,
        }
    }

    pub fn blocked(&self) -> (r: Option<(&'static str, &'static str)>)
        ensures
            match r {
                Some(w) => self.words() == Some((w.0@, w.1@)),
                None => self.words() is None,
            },
    {
        match self {
            Availability::MainnetOnly => Some((MAINNET_ONLY, "K-Social: blocked (Mainnet only)")),
            Availability::Disabled => Some((DISABLED, "K-Social: blocked (disabled in Settings)")),
            Availability::Available => None,
        }
    }
}

/// The host at which the view reaches the indexer: the loopback address
/// where the API is bound to every interface, the bind address as it is
/// written otherwise.
pub open spec fn api_host(api_bind: Seq<char>) -> Seq<char> {
    if api_bind == "0.0.0.0"@ || api_bind == "::"@ || api_bind == "[::]"@ {
        "127.0.0.1"@
    } else {
        api_bind
    }
}

pub fn k_api_host(api_bind: &str) -> (r: String)
    ensures
        r@ == api_host(api_bind@),
{
    if str_eq(api_bind, "0.0.0.0") || str_eq(api_bind, "::") || str_eq(api_bind, "[::]") {
        String::from_str("127.0.0.1")
    } else {
        string_of(&chars_of(api_bind))
    }
}

/// What the view tells of a test whose result differs from the last.
#[derive(Clone, Copy, Debug, PartialEq, Eq, Structural)]
pub enum ProbeNote {
    /// The indexer answers.
    Reachable,
    /// The indexer is waited for.
    Waiting,
}

/// What the view remembers of its tests of the indexer. Times are
/// milliseconds on a clock that never goes back.
#[derive(Clone, Debug, PartialEq, Eq)]
pub struct ProbeWatch {
    pub last_probe_at: Option<u64>,
    pub last_probe_ok: Option<bool>,
    pub last_probe_status: Option<String>,
    pub waiting_since: Option<u64>,
}

/// Whether the indexer is tested at `now`, after a last test at `last`.
pub open spec fn probe_is_due(last: Option<u64>, now: u64) -> bool {
    match last {
        Some(at) => now >= at && now - at >= PROBE_INTERVAL_MS,
        None => true,
    }
}

/// What is told of a test: nothing where its result is that of the last
/// test.
pub open spec fn note_of(last_ok: Option<bool>, ok: bool) -> Option<ProbeNote> {
    if last_ok == Some(ok) {
        None
    } else if ok {
        Some(ProbeNote::Reachable)
    } else {
        Some(ProbeNote::Waiting)
    }
}

/// Since when the indexer is waited for, after a test at `now`: a wait
/// that has begun goes on, one that begins is dated `now`, and an answer
/// ends it. An answer that follows an answer leaves the date as it is.
pub open spec fn waiting_after(
    since: Option<u64>,
    last_ok: Option<bool>,
    now: u64,
    ok: bool,
) -> Option<u64> {
    if ok {
        if last_ok == Some(true) {
            since
        } else {
            None
        }
    } else {
        match since {
            Some(at) => Some(at),
            None => Some(now),
        }
    }
}

/// Seconds for which the indexer has been waited for at `now`.
pub open spec fn waited(since: Option<u64>, now: u64) -> u64 {
    match since {
        Some(at) => if now >= at {
            ((now - at) / 1000) as u64
        } else {
            0
        },
        None => 0,
    }
}

impl ProbeWatch {
    /// A watch that has made no test.
    pub open spec fn blank() -> ProbeWatch {
        ProbeWatch {
            last_probe_at: None,
            last_probe_ok: None,
            last_probe_status: None,
            waiting_since: None,
        }
    }

    /// A watch that has made no test yet.
    pub fn new() -> (w: Self)
        ensures
            w == Self::blank(),
    {
        ProbeWatch {
            last_probe_at: None,
            last_probe_ok: None,
            last_probe_status: None,
            waiting_since: None,
        }
    }

    /// Forgets every test: the services were switched off.
    pub fn reset(&mut self)
        ensures
            *final(self) == Self::blank(),
    {
        self.last_probe_at = None;
        self.last_probe_ok = None;
        self.last_probe_status = None;
        self.waiting_since = None;
    }

    /// Whether the indexer is tested at `now`.
    pub fn probe_due(&self, now: u64) -> (b: bool)
        ensures
            b == probe_is_due(self.last_probe_at, now),
    {
        match self.last_probe_at {
            Some(at) => now >= at && now - at >= PROBE_INTERVAL_MS,
            None => true,
        }
    }

    /// Takes note of a test made at `now`, and says what is told of it.
    pub fn record(&mut self, now: u64, ok: bool, status: String) -> (note: Option<ProbeNote>)
        ensures
            note == note_of(old(self).last_probe_ok, ok),
            final(self).last_probe_at == Some(now),
            final(self).last_probe_ok == Some(ok),
            final(self).last_probe_status == Some(status),
            final(self).waiting_since == waiting_after(
                old(self).waiting_since,
                old(self).last_probe_ok,
                now,
                ok,
            ),
    {
        let same = match self.last_probe_ok {
            Some(last) => last == ok,
            None => false,
        };
        let note = if same {
            None
        } else if ok {
            Some(ProbeNote::Reachable)
        } else {
            Some(ProbeNote::Waiting)
        };
        if ok {
            if !same {
                self.waiting_since = None;
            }
        } else if self.waiting_since.is_none() {
            self.waiting_since = Some(now);
        }
        self.last_probe_ok = Some(ok);
        self.last_probe_status = Some(status);
        self.last_probe_at = Some(now);
        note
    }

    /// Whether the last test found the indexer well.
    pub fn is_ready(&self) -> (b: bool)
        ensures
            b == (self.last_probe_ok == Some(true)),
    {
        match self.last_probe_ok {
            Some(ok) => ok,
            None => false,
        }
    }

    /// Seconds for which the indexer has been waited for at `now`.
    pub fn waited_secs(&self, now: u64) -> (secs: u64)
        ensures
            secs == waited(self.waiting_since, now),
    {
        match self.waiting_since {
            Some(at) => {
                if now >= at {
                    (now - at) / 1000
                } else {
                    0
                }
            },
            None => 0,
        }
    }

    /// Whether the wait is called long at `now`.
    pub fn is_slow(&self, now: u64) -> (b: bool)
        ensures
            b == (waited(self.waiting_since, now) >= SLOW_START_SECS),
    {
        self.waited_secs(now) >= SLOW_START_SECS
    }
}

/// A test that gives the result of the last one is not told of again.
pub proof fn lemma_same_result_is_told_once(last_ok: Option<bool>, ok: bool)
    ensures
        note_of(Some(ok), ok) is None,
        note_of(None, ok) is Some,
        note_of(last_ok, ok) is Some ==> note_of(Some(ok), ok) is None,
{
}

/// While the indexer does not answer, the wait keeps its first date.
pub proof fn lemma_wait_keeps_its_date(since: u64, last_ok: Option<bool>, now: u64)
    ensures
        waiting_after(Some(since), last_ok, now, false) == Some(since),
        waiting_after(None, last_ok, now, false) == Some(now),
{
}

/// The line that the view's log gets for a note.
pub open spec fn note_text(note: ProbeNote, host: Seq<char>, port: u16) -> Seq<char> {
    match note {
        ProbeNote::Reachable => concat(
            seq![
                "K-Social: K-indexer API reachable at http://"@,
                host,
                ":"@,
                decimal(port as nat),
                "/health"@,
            ],
        ),
        ProbeNote::Waiting => concat(
            seq![
                "K-Social: waiting for K-indexer API at http://"@,
                host,
                ":"@,
                decimal(port as nat),
                "/health"@,
            ],
        ),
    }
}

pub fn note_line(note: ProbeNote, host: &str, port: u16) -> (r: String)
    ensures
        r@ == note_text(note, host@, port),
{
    let mut p = no_pieces();
    match note {
        ProbeNote::Reachable => {
            push_text(&mut p, "K-Social: K-indexer API reachable at http://");
        },
        ProbeNote::Waiting => {
            push_text(&mut p, "K-Social: waiting for K-indexer API at http://");
        },
    }
    push_text(&mut p, host);
    push_text(&mut p, ":");
    push_number(&mut p, port as u64);
    push_text(&mut p, "/health");
    assert(texts(p@) =~= seq![
        match note {
            ProbeNote::Reachable => "K-Social: K-indexer API reachable at http://"@,
            ProbeNote::Waiting => "K-Social: waiting for K-indexer API at http://"@,
        },
        host@,
        ":"@,
        decimal(port as nat),
        "/health"@,
    ]);
    join(&p)
}

/// What the view shows while the indexer is waited for.
pub open spec fn waiting_label(host: Seq<char>, port: u16, waited_secs: u64) -> Seq<char> {
    concat(
        seq![
            "Waiting for K-indexer API: http://"@,
            host,
            ":"@,
            decimal(port as nat),
            "/health ("@,
            decimal(waited_secs as nat),
            "s)"@,
        ],
    )
}

pub fn waiting_label_text(host: &str, port: u16, waited_secs: u64) -> (r: String)
    ensures
        r@ == waiting_label(host@, port, waited_secs),
{
    let mut p = no_pieces();
    push_text(&mut p, "Waiting for K-indexer API: http://");
    push_text(&mut p, host);
    push_text(&mut p, ":");
    push_number(&mut p, port as u64);
    push_text(&mut p, "/health (");
    push_number(&mut p, waited_secs);
    push_text(&mut p, "s)");
    assert(texts(p@) =~= seq![
        "Waiting for K-indexer API: http://"@,
        host@,
        ":"@,
        decimal(port as nat),
        "/health ("@,
        decimal(waited_secs as nat),
        "s)"@,
    ]);
    join(&p)
}

/// The line that says that the local web server runs.
pub open spec fn server_started(
    host: Seq<char>,
    port: u16,
    api_host: Seq<char>,
    api_port: u16,
) -> Seq<char> {
    concat(
        seq![
            "K-Social: local web server started on "@,
            host,
            ":"@,
            decimal(port as nat),
            " (api "@,
            api_host,
            ":"@,
            decimal(api_port as nat),
            ")"@,
        ],
    )
}

pub fn server_started_line(host: &str, port: u16, api_host: &str, api_port: u16) -> (r: String)
    ensures
        r@ == server_started(host@, port, api_host@, api_port),
{
    let mut p = no_pieces();
    push_text(&mut p, "K-Social: local web server started on ");
    push_text(&mut p, host);
    push_text(&mut p, ":");
    push_number(&mut p, port as u64);
    push_text(&mut p, " (api ");
    push_text(&mut p, api_host);
    push_text(&mut p, ":");
    push_number(&mut p, api_port as u64);
    push_text(&mut p, ")");
    assert(texts(p@) =~= seq![
        "K-Social: local web server started on "@,
        host@,
        ":"@,
        decimal(port as nat),
        " (api "@,
        api_host@,
        ":"@,
        decimal(api_port as nat),
        ")"@,
    ]);
    join(&p)
}

/// The line that says that the front end is loaded.
pub open spec fn loading(host: Seq<char>, port: u16) -> Seq<char> {
    concat(
        seq!["K-Social: loading web app with API http://"@, host, ":"@, decimal(port as nat)],
    )
}

pub fn loading_line(host: &str, port: u16) -> (r: String)
    ensures
        r@ == loading(host@, port),
{
    let mut p = no_pieces();
    push_text(&mut p, "K-Social: loading web app with API http://");
    push_text(&mut p, host);
    push_text(&mut p, ":");
    push_number(&mut p, port as u64);
    assert(texts(p@) =~= seq![
        "K-Social: loading web app with API http://"@,
        host@,
        ":"@,
        decimal(port as nat),
    ]);
    join(&p)
}

/// Whether a server that hands requests on to `serving` can stay where
/// the indexer is now reached at `wanted`.
pub open spec fn serves(serving: Option<(Seq<char>, u16)>, wanted: (Seq<char>, u16)) -> bool {
    serving == Some(wanted)
}

/// Whether the running server, which hands requests on to the given host
/// and port, can stay. Where it cannot, it is stopped and a new one is
/// started.
pub fn server_can_stay(serving: Option<(&str, u16)>, api_host: &str, api_port: u16) -> (b: bool)
    ensures
        b == serves(
            match serving {
                Some(s) => Some((s.0@, s.1)),
                None => None,
            },
            (api_host@, api_port),
        ),
{
    match serving {
        Some((host, port)) => str_eq(host, api_host) && port == api_port,
        None => false,
    }
}

/// Whether the front end that was loaded for `loaded` must be loaded
/// anew for `wanted`: the network, the host or the port has changed.
pub fn must_reload(
    loaded: Option<(Network, &str, u16)>,
    network: Network,
    host: &str,
    port: u16,
) -> (b: bool)
    ensures
        b == match loaded {
            Some(l) => !(l.0 == network && l.1@ == host@ && l.2 == port),
            None => true,
        },
{
    match loaded {
        Some((n, h, p)) => {
            let same_network = match (n, network) {
                (Network::Mainnet, Network::Mainnet) => true,
                (Network::Testnet10, Network::Testnet10) => true,
                (Network::Testnet12, Network::Testnet12) => true,
                _ => false,
            };
            !(same_network && str_eq(h, host) && p == port)
        },
        None => true,
    }
}

} // verus!
