//! Peers: who they are, which of them answer, and the order in which a vertex is
//! offered to them.

use vstd::prelude::*;
use crate::clock::{now, Timestamp};
use crate::state::new_identifier;
use crate::error::{NodeError, NodeResult};

verus! {

/// The seconds that a peer has to answer a probe.
pub const PROBE_TIMEOUT_SECONDS: u64 = 5;

/// Another node that takes vertices.
#[derive(Debug)]
pub struct Peer {
    pub id: String,
    pub name: String,
    pub address: String,
    /// The time of the last probe that the peer answered.
    pub last_seen: Option<Timestamp>,
}

/// What a `Peer` holds, as mathematical values.
pub struct PeerView {
    pub id: Seq<char>,
    pub name: Seq<char>,
    pub address: Seq<char>,
    pub last_seen: Option<Timestamp>,
}

impl View for Peer {
    type V = PeerView;

    open spec fn view(&self) -> PeerView {
        PeerView {
            id: self.id@,
            name: self.name@,
            address: self.address@,
            last_seen: self.last_seen,
        }
    }
}

impl Clone for Peer {
    fn clone(&self) -> (r: Self)
        ensures
            r@ == self@,
    {
        Peer {
            id: self.id.clone(),
            name: self.name.clone(),
            address: self.address.clone(),
            last_seen: self.last_seen,
        }
    }
}

/// The peers of a list as mathematical values, in order.
pub open spec fn peers_view(peers: Seq<Peer>) -> Seq<PeerView> {
    Seq::new(peers.len(), |i: int| peers[i]@)
}

/// The peers that answered the last probe and those that did not.
#[derive(Debug)]
pub struct FederationStatus {
    pub online_peers: Vec<Peer>,
    pub offline_peers: Vec<Peer>,
    pub last_check: Timestamp,
}

/// The federation that a node belongs to.
#[derive(Debug)]
pub struct FederationConfig {
    pub federation_name: String,
    pub node_id: String,
    pub node_name: String,
    pub peers: Vec<Peer>,
    pub sync_endpoint: String,
}

/// An HTTP status in the range of success, 200 to 299.
pub open spec fn is_success(status: int) -> bool {
    200 <= status < 300
}

/// A probe or a push was answered, and with success. `None` stands for a request
/// that got no answer.
pub open spec fn answered_well(status: Option<u16>) -> bool {
    status matches Some(code) && is_success(code as int)
}

/// Whether an answer counts as success.
pub fn check_peer_status(status: Option<u16>) -> (ok: bool)
    ensures
        ok == answered_well(status),
{
    match status {
        Some(code) => 200 <= code && code < 300,
        None => false,
    }
}

/// The address at which a peer answers a probe.
pub open spec fn status_url(address: Seq<char>) -> Seq<char> {
    address + "/status"@
}

/// The address at which a peer takes vertices.
pub open spec fn vertices_url(address: Seq<char>) -> Seq<char> {
    address + "/dag/vertices"@
}

/// The address at which the peer at `address` answers a probe.
pub fn status_endpoint(address: &str) -> (url: String)
    ensures
        url@ == status_url(address@),
{
    let mut url = String::from_str(address);
    url.append("/status");
    url
}

/// The address at which the peer at `address` takes vertices.
pub fn vertices_endpoint(address: &str) -> (url: String)
    ensures
        url@ == vertices_url(address@),
{
    let mut url = String::from_str(address);
    url.append("/dag/vertices");
    url
}

/// The peer `p`, seen at `now`.
pub open spec fn seen(p: PeerView, now: Timestamp) -> PeerView {
    PeerView { id: p.id, name: p.name, address: p.address, last_seen: Some(now) }
}

/// The probe of the peer at position `i` was answered with success. A peer
/// without an answer in `answers` counts as unreachable.
pub open spec fn is_up(answers: Seq<Option<u16>>, i: int) -> bool {
    0 <= i < answers.len() && answered_well(answers[i])
}

/// The reachable peers among `peers`, in order, each seen at `now`.
pub open spec fn online_of(peers: Seq<PeerView>, answers: Seq<Option<u16>>, now: Timestamp) -> Seq<
    PeerView,
>
    decreases peers.len(),
{
    if peers.len() == 0 {
        Seq::empty()
    } else {
        let rest = online_of(peers.drop_last(), answers, now);
        if is_up(answers, peers.len() - 1) {
            rest.push(seen(peers.last(), now))
        } else {
            rest
        }
    }
}

/// The unreachable peers among `peers`, in order, as they were.
pub open spec fn offline_of(peers: Seq<PeerView>, answers: Seq<Option<u16>>) -> Seq<PeerView>
    decreases peers.len(),
{
    if peers.len() == 0 {
        Seq::empty()
    } else {
        let rest = offline_of(peers.drop_last(), answers);
        if is_up(answers, peers.len() - 1) {
            rest
        } else {
            rest.push(peers.last())
        }
    }
}

/// Sorts the peers by the answers to their probes, as of the present moment,
/// which is read from the clock: the answer at position `i` of `answers` belongs
/// to the peer at position `i`. The reachable peers are marked as seen at that
/// moment; the others are left as they are.
pub fn check_federation_health(peers: &Vec<Peer>, answers: &Vec<Option<u16>>) -> (status:
    FederationStatus)
    ensures
        peers_view(status.online_peers@) == online_of(
            peers_view(peers@),
            answers@,
            status.last_check,
        ),
        peers_view(status.offline_peers@) == offline_of(peers_view(peers@), answers@),
{
    sort_peers(peers, answers, now())
}

/// Sorts the peers by the answers to their probes, taken at `now`: the answer at
/// position `i` of `answers` belongs to the peer at position `i`. The reachable
/// peers are marked as seen at `now`; the others are left as they are.
pub fn sort_peers(peers: &Vec<Peer>, answers: &Vec<Option<u16>>, now: Timestamp) -> (status:
    FederationStatus)
    ensures
        peers_view(status.online_peers@) == online_of(peers_view(peers@), answers@, now),
        peers_view(status.offline_peers@) == offline_of(peers_view(peers@), answers@),
        status.last_check == now,
{
    let mut online: Vec<Peer> = Vec::new();
    let mut offline: Vec<Peer> = Vec::new();
    let mut i: usize = 0;
    proof {
        assert(peers_view(peers@).take(0) =~= Seq::<PeerView>::empty());
        assert(peers_view(online@) =~= Seq::<PeerView>::empty());
        assert(peers_view(offline@) =~= Seq::<PeerView>::empty());
    }
    while i < peers.len()
        invariant
            i <= peers.len(),
            peers_view(online@) == online_of(peers_view(peers@).take(i as int), answers@, now),
            peers_view(offline@) == offline_of(peers_view(peers@).take(i as int), answers@),
        decreases peers.len() - i,
    {
        let ghost before_on = peers_view(online@);
        let ghost before_off = peers_view(offline@);
        proof {
            let next = peers_view(peers@).take(i + 1);
            assert(next.drop_last() =~= peers_view(peers@).take(i as int));
            assert(next.last() == peers@[i as int]@);
        }
        let up = i < answers.len() && check_peer_status(answers[i]);
        if up {
            let mut p = peers[i].clone();
            p.last_seen = Some(now);
            online.push(p);
            assert(peers_view(online@) =~= before_on.push(seen(peers@[i as int]@, now)));
        } else {
            offline.push(peers[i].clone());
            assert(peers_view(offline@) =~= before_off.push(peers@[i as int]@));
        }
        i = i + 1;
    }
    assert(peers_view(peers@).take(peers@.len() as int) =~= peers_view(peers@));
    FederationStatus { online_peers: online, offline_peers: offline, last_check: now }
}

/// What happened while a vertex is offered to the peers.
#[derive(Debug, Clone, Copy)]
pub enum BroadcastEvent {
    /// The broadcast begins.
    Begin,
    /// The probe was answered with this status, or not at all.
    ProbeAnswered { status: Option<u16> },
    /// The push was answered with this status, or not at all.
    PushAnswered { status: Option<u16> },
}

/// What the caller is to do next for a broadcast.
#[derive(Debug)]
pub enum BroadcastAction {
    /// Probe the peer at this position, at `url`, for five seconds at most.
    Probe { peer: usize, url: String },
    /// Send the vertex to the peer at this position, at `url`.
    Push { peer: usize, url: String },
    /// Every peer had its turn. The broadcast has succeeded, whatever the peers
    /// answered.
    Finished,
}

/// How far a broadcast has come.
#[derive(Debug, Clone, Copy, PartialEq, Eq, Structural)]
pub struct Broadcast {
    /// The position of the peer whose turn it is.
    pub position: usize,
    /// Whether the answer to a push is awaited; else, to a probe.
    pub pushing: bool,
    /// How many peers took the vertex.
    pub delivered: usize,
}

/// The broadcast that follows `b` on `event`, with `n` peers in the list. A probe
/// that succeeds is followed by a push to the same peer; a probe that fails, and
/// every answer to a push, ends the peer's turn. An event that is not awaited
/// changes nothing.
pub open spec fn broadcast_after(b: Broadcast, n: int, event: BroadcastEvent) -> Broadcast {
    match event {
        BroadcastEvent::Begin => Broadcast { position: 0, pushing: false, delivered: 0 },
        BroadcastEvent::ProbeAnswered { status } => if !b.pushing && b.position < n {
            if answered_well(status) {
                Broadcast { position: b.position, pushing: true, delivered: b.delivered }
            } else {
                Broadcast {
                    position: (b.position + 1) as usize,
                    pushing: false,
                    delivered: b.delivered,
                }
            }
        } else {
            b
        },
        BroadcastEvent::PushAnswered { status } => if b.pushing && b.position < n {
            Broadcast {
                position: (b.position + 1) as usize,
                pushing: false,
                delivered: if answered_well(status) && b.delivered < usize::MAX {
                    (b.delivered + 1) as usize
                } else {
                    b.delivered
                },
            }
        } else {
            b
        },
    }
}

/// The broadcast has nothing left to do with `n` peers.
pub open spec fn broadcast_done(b: Broadcast, n: int) -> bool {
    b.position >= n
}

impl Broadcast {
    /// A broadcast that has not begun.
    pub fn new() -> (b: Broadcast)
        ensures
            b == (Broadcast { position: 0, pushing: false, delivered: 0 }),
    {
        Broadcast { position: 0, pushing: false, delivered: 0 }
    }

    /// The result of the broadcast, once every peer had its turn: success with
    /// the number of peers that took the vertex, whatever the others answered.
    /// What is sent to peers is advisory; the vertex is already in the local
    /// ledger. `None` while a peer's turn is still to come.
    pub fn outcome(&self, peers: &Vec<Peer>) -> (r: Option<NodeResult<usize>>)
        ensures
            r is Some <==> broadcast_done(*self, peers@.len() as int),
            r matches Some(res) ==> res matches Ok(count) && count == self.delivered,
    {
        if self.position >= peers.len() {
            Some(Ok(self.delivered))
        } else {
            None
        }
    }
}

/// Takes one event of a broadcast and says what is to be done next: a probe or a push for
/// the peer whose turn it is, or nothing more when every peer had its turn.
pub fn broadcast_vertex(b: &mut Broadcast, peers: &Vec<Peer>, event: BroadcastEvent) -> (action:
    BroadcastAction)
    ensures
        *final(b) == broadcast_after(*old(b), peers@.len() as int, event),
        broadcast_done(*final(b), peers@.len() as int) <==> action is Finished,
        !broadcast_done(*final(b), peers@.len() as int) && final(b).pushing ==> (
        action matches BroadcastAction::Push { peer, url } && peer == final(b).position
            && url@ == vertices_url(peers@[peer as int].address@)),
        !broadcast_done(*final(b), peers@.len() as int) && !final(b).pushing ==> (
        action matches BroadcastAction::Probe { peer, url } && peer == final(b).position
            && url@ == status_url(peers@[peer as int].address@)),
{
    let n: usize = peers.len();
    match event {
        BroadcastEvent::Begin => {
            b.position = 0;
            b.pushing = false;
            b.delivered = 0;
        },
        BroadcastEvent::ProbeAnswered { status } => {
            if !b.pushing && b.position < n {
                if check_peer_status(status) {
                    b.pushing = true;
                } else {
                    b.position = b.position + 1;
                }
            }
        },
        BroadcastEvent::PushAnswered { status } => {
            if b.pushing && b.position < n {
                b.position = b.position + 1;
                b.pushing = false;
                if check_peer_status(status) && b.delivered < usize::MAX {
                    b.delivered = b.delivered + 1;
                }
            }
        },
    }
    if b.position >= n {
        BroadcastAction::Finished
    } else if b.pushing {
        BroadcastAction::Push {
            peer: b.position,
            url: vertices_endpoint(peers[b.position].address.as_str()),
        }
    } else {
        BroadcastAction::Probe {
            peer: b.position,
            url: status_endpoint(peers[b.position].address.as_str()),
        }
    }
}

/// The broadcast after the probes of the peers from position `from` on were
/// answered as `answers` says, one answer for each peer by its position, `n`
/// peers in all.
pub open spec fn after_probes(b: Broadcast, n: int, from: int, answers: Seq<Option<u16>>) -> Broadcast
    decreases n - from,
{
    if from >= n {
        b
    } else {
        after_probes(
            broadcast_after(b, n, BroadcastEvent::ProbeAnswered { status: answers[from] }),
            n,
            from + 1,
            answers,
        )
    }
}

/// A broadcast to peers of which none answers its probe with success, be it
/// with no answer or with a status outside the range of success, comes to its
/// end without a single push, and nothing is delivered.
pub proof fn lemma_unreachable_peers_end_broadcast(
    n: int,
    from: int,
    delivered: usize,
    answers: Seq<Option<u16>>,
)
    requires
        0 <= from <= n <= usize::MAX,
        answers.len() == n,
        forall|i: int| from <= i < n ==> !answered_well(#[trigger] answers[i]),
    ensures
        ({
            let start = Broadcast { position: from as usize, pushing: false, delivered };
            let end = after_probes(start, n, from, answers);
            broadcast_done(end, n) && !end.pushing && end.delivered == delivered
        }),
    decreases n - from,
{
    if from < n {
        assert(!answered_well(answers[from]));
        lemma_unreachable_peers_end_broadcast(n, from + 1, delivered, answers);
    }
}

/// `c` is the configuration of a node that knows of no federation: the
/// development federation with the local node as its only peer.
pub open spec fn is_default_config(c: &FederationConfig) -> bool {
    &&& c.federation_name@ == "dev-federation"@
    &&& c.node_name@ == "node-"@ + c.node_id@
    &&& c.sync_endpoint@ == "http://localhost:26657/dag/sync"@
    &&& c.peers@.len() == 1
    &&& c.peers@[0]@ == (PeerView {
        id: "local"@,
        name: "localhost"@,
        address: "http://localhost:26657"@,
        last_seen: None,
    })
}

/// The configuration of the node `node_id` that knows of no federation.
pub fn default_config(node_id: &str) -> (c: FederationConfig)
    ensures
        c.node_id@ == node_id@,
        is_default_config(&c),
{
    let mut node_name = String::from_str("node-");
    node_name.append(node_id);
    let mut peers: Vec<Peer> = Vec::new();
    peers.push(
        Peer {
            id: String::from_str("local"),
            name: String::from_str("localhost"),
            address: String::from_str("http://localhost:26657"),
            last_seen: None,
        },
    );
    FederationConfig {
        federation_name: String::from_str("dev-federation"),
        node_id: String::from_str(node_id),
        node_name,
        peers,
        sync_endpoint: String::from_str("http://localhost:26657/dag/sync"),
    }
}

/// Where a federation configuration comes from.
#[derive(Debug, Clone, Copy, PartialEq, Eq, Structural)]
pub enum ConfigSource {
    /// The node state holds one.
    Stored,
    /// The peer directory named one; it is to be stored.
    Directory,
    /// Neither: the default is used, under an identifier drawn at random, and is
    /// to be stored.
    Default,
}

/// Chooses the federation configuration: the stored one first, then the one that
/// the peer directory names, then the default.
pub fn get_federation_config(
    stored: Option<FederationConfig>,
    directory: Option<FederationConfig>,
) -> (r: (FederationConfig, ConfigSource))
    ensures
        stored matches Some(c) ==> r.0 == c && r.1 == ConfigSource::Stored,
        stored is None ==> (directory matches Some(c) ==> r.0 == c && r.1
            == ConfigSource::Directory),
        stored is None && directory is None ==> r.1 == ConfigSource::Default && is_default_config(
            &r.0,
        ),
{
    match stored {
        Some(c) => (c, ConfigSource::Stored),
        None => match directory {
            Some(c) => (c, ConfigSource::Directory),
            None => (default_config(new_identifier().as_str()), ConfigSource::Default),
        },
    }
}

/// The message of the error for a tool that ended with a failure.
pub open spec fn tool_failure_message(what: Seq<char>, stderr: Seq<char>) -> Seq<char> {
    what + ": "@ + stderr
}

/// The error for a delegated tool that ended without success: `what` failed, with
/// the tool's own words, and the exit code, or -1 where the tool gave none.
pub fn shell_failure(what: &str, stderr: &str, code: Option<i32>) -> (e: NodeError)
    ensures
        e matches NodeError::ShellCommand { message, code: c } && message@ == tool_failure_message(
            what@,
            stderr@,
        ) && c == match code {
            Some(n) => n,
            None => -1i32,
        },
{
    let mut message = String::from_str(what);
    message.append(": ");
    message.append(stderr);
    NodeError::ShellCommand {
        message,
        code: match code {
            Some(n) => n,
            None => -1,
        },
    }
}

/// How a delegated tool ended.
#[derive(Debug)]
pub struct ToolRun {
    /// Whether the tool reported success.
    pub success: bool,
    /// The exit code, where the tool gave one.
    pub code: Option<i32>,
    /// What the tool printed.
    pub stdout: String,
    /// What the tool printed as errors.
    pub stderr: String,
}

/// The result of synchronising with the federation through its tool. `run` tells
/// how the tool ended, or is `None` where the tool is not installed, which is no
/// failure. A tool that ended without success gives a `ShellCommand` error with
/// its words and its exit code.
pub fn sync_with_federation(run: Option<&ToolRun>) -> (r: NodeResult<()>)
    ensures
        match run {
            Some(t) => if t.success {
                r is Ok
            } else {
                r matches Err(NodeError::ShellCommand { message, code }) && message@
                    == tool_failure_message("Federation sync failed"@, t.stderr@) && code == match t.code {
                    Some(n) => n,
                    None => -1i32,
                }
            },
            None => r is Ok,
        },
{
    match run {
        Some(t) => if t.success {
            Ok(())
        } else {
            Err(shell_failure("Federation sync failed", t.stderr.as_str(), t.code))
        },
        None => Ok(()),
    }
}

} // verus!
