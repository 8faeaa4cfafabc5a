//! What the settings view decides: what a change of the network takes
//! along, and, when the self-hosted services are switched on, which
//! ports it waits for and for how long.

use crate::network::Network;
use crate::services::{reachable_host, resolve_bind_host};
use crate::settings::{
    Effective, ExplorerNetworkProfiles, ExplorerSettings, NodeSettings, SelfHostedSettings,
    Settings,
};
use crate::text::{concat, join, no_pieces, push_text, texts};
use vstd::prelude::*;
use vstd::string::StringExecFns;

verus! {

/// Milliseconds for which the services are waited for.
pub const READY_DEADLINE_MS: u64 = 15000;

/// Milliseconds between two looks at the services.
pub const READY_POLL_MS: u64 = 350;

/// A host and a port that must accept connections.
#[derive(Clone, Debug, PartialEq, Eq)]
pub struct Endpoint {
    pub host: String,
    pub port: u16,
}

/// What an endpoint says.
pub ghost struct EndpointView {
    pub host: Seq<char>,
    pub port: u16,
}

impl View for Endpoint {
    type V = EndpointView;

    open spec fn view(&self) -> EndpointView {
        EndpointView { host: self.host@, port: self.port }
    }
}

pub open spec fn endpoint_views(v: Seq<Endpoint>) -> Seq<EndpointView> {
    v.map_values(|e: Endpoint| e@)
}

/// The endpoints of the self-hosted services: the two servers of the
/// explorer, the status API and the database, in this order. The first
/// three are reached at the host that the API is bound to.
pub open spec fn self_hosted_endpoints(s: SelfHostedSettings, e: Effective) -> Seq<EndpointView> {
    let host = reachable_host(s.api_bind@);
    seq![
        EndpointView { host, port: e.explorer_rest_port },
        EndpointView { host, port: e.explorer_socket_port },
        EndpointView { host, port: e.api_port },
        EndpointView { host: s.db_host@, port: e.db_port },
    ]
}

/// The endpoints that must all accept connections before the
/// self-hosted services count as ready.
pub fn endpoints_to_probe(settings: &SelfHostedSettings, effective: &Effective) -> (v: Vec<Endpoint>)
    ensures
        endpoint_views(v@) == self_hosted_endpoints(*settings, *effective),
{
    let mut v: Vec<Endpoint> = Vec::new();
    v.push(
        Endpoint {
            host: resolve_bind_host(settings.api_bind.as_str()),
            port: effective.explorer_rest_port,
        },
    );
    v.push(
        Endpoint {
            host: resolve_bind_host(settings.api_bind.as_str()),
            port: effective.explorer_socket_port,
        },
    );
    v.push(
        Endpoint { host: resolve_bind_host(settings.api_bind.as_str()), port: effective.api_port },
    );
    v.push(Endpoint { host: settings.db_host.clone(), port: effective.db_port });
    assert(endpoint_views(v@) =~= self_hosted_endpoints(*settings, *effective));
    v
}

/// Whether every endpoint accepted a connection.
pub open spec fn all_accept(answers: Seq<bool>) -> bool {
    forall|i: int| 0 <= i < answers.len() ==> answers[i]
}

pub fn all_ready(answers: &Vec<bool>) -> (b: bool)
    ensures
        b == all_accept(answers@),
{
    let mut i: usize = 0;
    while i < answers.len()
        invariant
            i <= answers.len(),
            forall|k: int| 0 <= k < i ==> answers@[k],
        decreases answers.len() - i,
    {
        if !answers[i] {
            return false;
        }
        i = i + 1;
    }
    true
}

/// What follows from a look at the services.
#[derive(Clone, Copy, Debug, PartialEq, Eq, Structural)]
pub enum ReadyStep {
    /// Every service answers.
    Ready,
    /// Sleep, then look again.
    Sleep { ms: u64 },
    /// The services did not come up in time.
    GiveUp,
}

/// Whether the services are looked at once more, `elapsed_ms` after the
/// wait began.
pub open spec fn looks_again(elapsed_ms: u64) -> bool {
    elapsed_ms < READY_DEADLINE_MS
}

/// What follows `elapsed_ms` after the wait began. The services are
/// looked at only before the deadline; `answers` is what the look gave.
pub open spec fn ready_step(elapsed_ms: u64, answers: Seq<bool>) -> ReadyStep {
    if !looks_again(elapsed_ms) {
        ReadyStep::GiveUp
    } else if all_accept(answers) {
        ReadyStep::Ready
    } else {
        ReadyStep::Sleep { ms: READY_POLL_MS }
    }
}

/// Whether the wait goes on `elapsed_ms` after it began.
pub fn may_look(elapsed_ms: u64) -> (b: bool)
    ensures
        b == looks_again(elapsed_ms),
{
    elapsed_ms < READY_DEADLINE_MS
}

/// Decides what follows from a look at the services.
pub fn next_ready_step(elapsed_ms: u64, answers: &Vec<bool>) -> (r: ReadyStep)
    ensures
        r == ready_step(elapsed_ms, answers@),
{
    if !may_look(elapsed_ms) {
        ReadyStep::GiveUp
    } else if all_ready(answers) {
        ReadyStep::Ready
    } else {
        ReadyStep::Sleep { ms: READY_POLL_MS }
    }
}

/// The wait ends: it sleeps only before the deadline, at and beyond the
/// deadline it is given up, and the services count as ready only where
/// every one of them answered.
pub proof fn lemma_ready_wait_ends(elapsed_ms: u64, answers: Seq<bool>)
    ensures
        ready_step(elapsed_ms, answers) is Sleep ==> elapsed_ms < READY_DEADLINE_MS,
        elapsed_ms >= READY_DEADLINE_MS ==> ready_step(elapsed_ms, answers) == ReadyStep::GiveUp,
        ready_step(elapsed_ms, answers) == ReadyStep::Ready ==> all_accept(answers),
{
}

/// The settings after the node was moved to `network`. Where the
/// endpoints of the self-hosted explorer follow the settings, `synced`
/// holds them as they are now, and they replace the stored ones.
pub open spec fn on_network(
    s: Settings,
    network: Network,
    synced: Option<ExplorerNetworkProfiles>,
) -> Settings {
    Settings {
        node: NodeSettings { network, ..s.node },
        explorer: ExplorerSettings {
            self_hosted: match synced {
                Some(profiles) => profiles,
                None => s.explorer.self_hosted,
            },
            ..s.explorer
        },
        ..s
    }
}

/// Moves the node to `network`. Where the endpoints of the self-hosted
/// explorer follow the settings, the caller hands them in as they are
/// now, and they replace the stored ones.
pub fn change_current_network(
    settings: &mut Settings,
    network: Network,
    synced: Option<ExplorerNetworkProfiles>,
)
    ensures
        *final(settings) == on_network(*old(settings), network, synced),
{
    settings.node.network = network;
    if let Some(profiles) = synced {
        settings.explorer.self_hosted = profiles;
    }
}

// ---------------------------------------------------------------------------
// The address that miners are told
// ---------------------------------------------------------------------------

/// The error of `local-ip-address`, carried through as it is.
#[verifier::external_type_specification]
#[verifier::external_body]
pub struct ExLocalIpError(local_ip_address::Error);

/// `local_ip_address::local_ip`: the address of this machine in the
/// local network, written out, and whether it is an IPv6 address. The
/// answer depends on the machine, so nothing is claimed of it.
#[verifier::external_body]
fn machine_address() -> (r: Result<(bool, String), local_ip_address::Error>) {
    local_ip_address::local_ip().map(|ip| (ip.is_ipv6(), ip.to_string()))
}

/// The host that miners are told to connect to, given the address of
/// this machine where it is known, and whether it is an IPv6 address:
/// an IPv6 address stands in square brackets, and a machine that does
/// not know its address is reached on the loopback address.
pub open spec fn stratum_host(found: Option<(bool, Seq<char>)>) -> Seq<char> {
    match found {
        Some(a) => if a.0 {
            concat(seq!["["@, a.1, "]"@])
        } else {
            concat(seq![a.1])
        },
        None => "127.0.0.1"@,
    }
}

/// Writes the host that miners are told to connect to.
pub fn host_for_stratum(found: Option<(bool, &str)>) -> (r: String)
    ensures
        r@ == stratum_host(
            match found {
                Some(a) => Some((a.0, a.1@)),
                None => None,
            },
        ),
{
    match found {
        Some((v6, address)) => {
            let mut p = no_pieces();
            if v6 {
                push_text(&mut p, "[");
                push_text(&mut p, address);
                push_text(&mut p, "]");
                assert(texts(p@) =~= seq!["["@, address@, "]"@]);
            } else {
                push_text(&mut p, address);
                assert(texts(p@) =~= seq![address@]);
            }
            join(&p)
        },
        None => String::from_str("127.0.0.1"),
    }
}

/// The host that miners are told to connect to: the address of this
/// machine in the local network, or the loopback address where the
/// machine does not know it.
pub fn local_ip_for_stratum() -> (r: String)
    ensures
        exists|found: Option<(bool, Seq<char>)>| r@ == #[trigger] stratum_host(found),
{
    match machine_address() {
        Ok((v6, address)) => {
            let r = host_for_stratum(Some((v6, address.as_str())));
            assert(r@ == stratum_host(Some((v6, address@))));
            r
        },
        Err(_) => {
            let r = host_for_stratum(None);
            assert(r@ == stratum_host(None));
            r
        },
    }
}

} // verus!
