//! The ledger as readers see it: summary, lookup, and news of appended vertices.

use vstd::prelude::*;
use crate::clock::{now, Timestamp};
use crate::error::{NodeError, NodeResult};
use crate::federation::{
    broadcast_vertex, status_url, Broadcast, BroadcastAction, BroadcastEvent, Peer,
};
use crate::state::{texts, NodeState, VertexEntry, VertexEntryView};
use crate::text::{join_path, joined, same_text};

verus! {

/// The seconds between two looks of the ledger's watcher.
pub const POLL_SECONDS: u64 = 5;

/// A vertex as it is sent to peers.
#[derive(Debug)]
pub struct Vertex {
    pub id: String,
    pub timestamp: Timestamp,
    pub proposal_id: String,
    pub parents: Vec<String>,
    pub hash: String,
    pub submitter: String,
}

/// Counts and times that sum up the ledger.
#[derive(Debug)]
pub struct DagInfo {
    pub vertex_count: usize,
    pub root_count: usize,
    pub tip_count: usize,
    pub genesis_time: Timestamp,
    pub latest_update: Timestamp,
    pub tips: Vec<String>,
}

/// The identifiers of the tips of a ledger: its newest entry alone, or nothing
/// for an empty ledger.
pub open spec fn tips_of(ledger: Seq<VertexEntryView>) -> Seq<Seq<char>> {
    if ledger.len() > 0 {
        seq![ledger.last().id]
    } else {
        Seq::empty()
    }
}

/// Sums up the ledger. One root is always reported, and the newest entry is the
/// only tip. The times are those of the oldest and the newest entry; for an empty
/// ledger both are the present moment, read from the clock.
pub fn get_dag_info(state: &NodeState) -> (info: DagInfo)
    ensures
        info.vertex_count == state.ledger().len(),
        info.root_count == 1,
        info.tip_count == tips_of(state.ledger()).len(),
        texts(info.tips@) == tips_of(state.ledger()),
        state.ledger().len() > 0 ==> info.genesis_time == state.ledger().first().timestamp
            && info.latest_update == state.ledger().last().timestamp,
        state.ledger().len() == 0 ==> info.genesis_time == info.latest_update,
{
    if state.dag_vertices.len() == 0 {
        summarize(state, now())
    } else {
        summarize(state, state.dag_vertices[0].timestamp)
    }
}

/// Sums up the ledger at the moment `now`. One root is always reported, and the
/// newest entry is the only tip. The times are those of the oldest and the
/// newest entry, or `now` for an empty ledger.
pub fn summarize(state: &NodeState, now: Timestamp) -> (info: DagInfo)
    ensures
        info.vertex_count == state.ledger().len(),
        info.root_count == 1,
        info.tip_count == tips_of(state.ledger()).len(),
        texts(info.tips@) == tips_of(state.ledger()),
        info.genesis_time == if state.ledger().len() > 0 {
            state.ledger().first().timestamp
        } else {
            now
        },
        info.latest_update == if state.ledger().len() > 0 {
            state.ledger().last().timestamp
        } else {
            now
        },
{
    let n: usize = state.dag_vertices.len();
    let mut tips: Vec<String> = Vec::new();
    let mut genesis_time = now;
    let mut latest_update = now;
    if n > 0 {
        tips.push(state.dag_vertices[n - 1].id.clone());
        genesis_time = state.dag_vertices[0].timestamp;
        latest_update = state.dag_vertices[n - 1].timestamp;
    }
    assert(texts(tips@) =~= tips_of(state.ledger()));
    DagInfo {
        vertex_count: n,
        root_count: 1,
        tip_count: tips.len(),
        genesis_time,
        latest_update,
        tips,
    }
}

/// The whole ledger, oldest entry first, as a copy.
pub fn get_all_vertices(state: &NodeState) -> (r: Vec<VertexEntry>)
    ensures
        crate::state::ledger_view(r@) == state.ledger(),
{
    let mut r: Vec<VertexEntry> = Vec::new();
    let mut i: usize = 0;
    while i < state.dag_vertices.len()
        invariant
            i <= state.dag_vertices.len(),
            r@.len() == i,
            forall|k: int| 0 <= k < i ==> r@[k]@ == state.dag_vertices@[k]@,
        decreases state.dag_vertices.len() - i,
    {
        r.push(state.dag_vertices[i].clone());
        i = i + 1;
    }
    assert(crate::state::ledger_view(r@) =~= state.ledger());
    r
}

/// The message of the error for a vertex that the ledger does not hold.
pub open spec fn not_found_message(id: Seq<char>) -> Seq<char> {
    "Vertex not found: "@ + id
}

/// No entry of the ledger before position `n` has the identifier `id`.
pub open spec fn absent_before(ledger: Seq<VertexEntryView>, id: Seq<char>, n: int) -> bool {
    forall|k: int| 0 <= k < n && k < ledger.len() ==> (#[trigger] ledger[k]).id != id
}

/// The oldest entry of the ledger with the identifier `id`. Fails with a `Dag`
/// error where the ledger holds none.
pub fn get_vertex(state: &NodeState, id: &str) -> (r: NodeResult<VertexEntry>)
    ensures
        match r {
            Ok(v) => exists|i: int|
                0 <= i < state.ledger().len() && state.ledger()[i] == v@ && v@.id == id@
                    && absent_before(state.ledger(), id@, i),
            Err(NodeError::Dag(m)) => m@ == not_found_message(id@) && absent_before(
                state.ledger(),
                id@,
                state.ledger().len() as int,
            ),
            Err(_) => false,
        },
{
    let mut i: usize = 0;
    while i < state.dag_vertices.len()
        invariant
            i <= state.dag_vertices.len(),
            absent_before(state.ledger(), id@, i as int),
        decreases state.dag_vertices.len() - i,
    {
        if same_text(state.dag_vertices[i].id.as_str(), id) {
            let v = state.dag_vertices[i].clone();
            assert(state.ledger()[i as int] == v@);
            return Ok(v);
        }
        assert(state.ledger()[i as int].id != id@);
        i = i + 1;
    }
    let mut m = String::from_str("Vertex not found: ");
    m.append(id);
    Err(NodeError::Dag(m))
}

/// The notice of a new vertex with the identifier `id`.
pub open spec fn vertex_notice(id: Seq<char>) -> Seq<char> {
    "New DAG vertex: "@ + id
}

/// The notices for the entries of `ledger` from position `from` on.
pub open spec fn notices_from(ledger: Seq<VertexEntryView>, from: int) -> Seq<Seq<char>> {
    Seq::new(
        if from <= ledger.len() {
            (ledger.len() - from) as nat
        } else {
            0
        },
        |k: int| vertex_notice(ledger[from + k].id),
    )
}

/// One look of the ledger's watcher, which saw `last_count` entries the last
/// time: a notice for each entry that came since, oldest first, and the count to
/// remember. A ledger that has not grown gives no notice and leaves the count.
pub fn watch_dag(state: &NodeState, last_count: usize) -> (r: (Vec<String>, usize))
    ensures
        state.ledger().len() > last_count ==> texts(r.0@) == notices_from(
            state.ledger(),
            last_count as int,
        ) && r.1 == state.ledger().len(),
        state.ledger().len() <= last_count ==> r.0@.len() == 0 && r.1 == last_count,
{
    let n: usize = state.dag_vertices.len();
    let mut notices: Vec<String> = Vec::new();
    if n <= last_count {
        return (notices, last_count);
    }
    let mut i: usize = last_count;
    while i < n
        invariant
            last_count <= i <= n,
            n == state.dag_vertices.len(),
            notices@.len() == i - last_count,
            forall|k: int|
                0 <= k < i - last_count ==> notices@[k]@ == vertex_notice(
                    state.dag_vertices@[last_count + k].id@,
                ),
        decreases n - i,
    {
        let mut m = String::from_str("New DAG vertex: ");
        m.append(state.dag_vertices[i].id.as_str());
        notices.push(m);
        i = i + 1;
    }
    assert(texts(notices@) =~= notices_from(state.ledger(), last_count as int));
    (notices, n)
}

/// The vertex `entry` as it is sent to peers by `submitter`. The ledger records no
/// parents.
pub fn to_wire(entry: &VertexEntry, submitter: &str) -> (v: Vertex)
    ensures
        v.id@ == entry.id@,
        v.timestamp == entry.timestamp,
        v.proposal_id@ == entry.proposal_id@,
        v.parents@.len() == 0,
        v.hash@ == entry.hash@,
        v.submitter@ == submitter@,
{
    Vertex {
        id: entry.id.clone(),
        timestamp: entry.timestamp,
        proposal_id: entry.proposal_id.clone(),
        parents: Vec::new(),
        hash: entry.hash.clone(),
        submitter: submitter.to_owned(),
    }
}

/// Records a new vertex: it is appended to the local ledger first, and only then
/// does its broadcast to `peers` begin. The action is the first of the broadcast:
/// a probe of the first peer, or the end where there is no peer.
pub fn add_vertex(state: &mut NodeState, vertex: VertexEntry, now: Timestamp, peers: &Vec<Peer>) -> (r:
    (Broadcast, BroadcastAction))
    ensures
        final(state).ledger() == old(state).ledger().push(vertex@),
        final(state).executed() == old(state).executed(),
        final(state).last_updated == now,
        final(state).same_identity(old(state)),
        r.0 == (Broadcast { position: 0, pushing: false, delivered: 0 }),
        peers@.len() == 0 ==> r.1 is Finished,
        peers@.len() > 0 ==> (r.1 matches BroadcastAction::Probe { peer, url } && peer == 0 && url@
            == status_url(peers@[0].address@)),
{
    crate::state::add_vertex(state, vertex, now);
    let mut b = Broadcast::new();
    let action = broadcast_vertex(&mut b, peers, BroadcastEvent::Begin);
    (b, action)
}

/// What is shown where the ledger's log does not exist.
pub open spec fn no_logs_text() -> Seq<char> {
    "No DAG logs found"@
}

/// The ledger's log as it is shown: the content of its file, or a notice where
/// the file does not exist.
pub fn get_dag_logs(content: Option<String>) -> (shown: String)
    ensures
        shown@ == match content {
            Some(c) => c@,
            None => no_logs_text(),
        },
{
    match content {
        Some(c) => c,
        None => String::from_str("No DAG logs found"),
    }
}

/// The file that holds the ledger's log, under the state directory `state_dir`.
pub fn get_dag_log_path(state_dir: &str) -> (file: String)
    ensures
        file@ == joined(joined(state_dir@, "logs"@), "dag.log"@),
{
    join_path(join_path(state_dir, "logs").as_str(), "dag.log")
}

} // verus!
