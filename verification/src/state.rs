//! The node's single persisted document and the operations that change it.

use vstd::prelude::*;
use crate::clock::{format_compact, format_display, now, Timestamp};
use crate::error::{NodeError, NodeResult};
use crate::text::{join_path, joined, same_text};

verus! {

/// One record of the ledger: a proposal that was executed with success.
#[derive(Debug)]
pub struct VertexEntry {
    pub id: String,
    pub proposal_id: String,
    pub timestamp: Timestamp,
    /// The fingerprint of the proposal file's bytes.
    pub hash: String,
}

/// What a `VertexEntry` holds, as mathematical values.
pub struct VertexEntryView {
    pub id: Seq<char>,
    pub proposal_id: Seq<char>,
    pub timestamp: Timestamp,
    pub hash: Seq<char>,
}

impl View for VertexEntry {
    type V = VertexEntryView;

    open spec fn view(&self) -> VertexEntryView {
        VertexEntryView {
            id: self.id@,
            proposal_id: self.proposal_id@,
            timestamp: self.timestamp,
            hash: self.hash@,
        }
    }
}

impl Clone for VertexEntry {
    fn clone(&self) -> (r: Self)
        ensures
            r@ == self@,
    {
        VertexEntry {
            id: self.id.clone(),
            proposal_id: self.proposal_id.clone(),
            timestamp: self.timestamp,
            hash: self.hash.clone(),
        }
    }
}

/// The entries of a ledger as mathematical values, in order.
pub open spec fn ledger_view(entries: Seq<VertexEntry>) -> Seq<VertexEntryView> {
    Seq::new(entries.len(), |i: int| entries[i]@)
}

/// The texts of a list of strings, in order.
pub open spec fn texts(items: Seq<String>) -> Seq<Seq<char>> {
    Seq::new(items.len(), |i: int| items[i]@)
}

/// No text occurs twice in `items`.
pub open spec fn distinct(items: Seq<Seq<char>>) -> bool {
    forall|i: int, j: int| 0 <= i < j < items.len() ==> items[i] != items[j]
}

/// The persisted document of a node.
#[derive(Debug)]
pub struct NodeState {
    pub node_id: String,
    pub initialized: Timestamp,
    pub last_updated: Timestamp,
    pub last_executed_block: u64,
    pub last_proposal_id: u64,
    /// The identifiers of the proposals that were executed: no identifier twice.
    pub executed_proposals: Vec<String>,
    pub active_connection: String,
    pub peers: Vec<String>,
    pub system_version: String,
    /// The ledger, oldest entry first.
    pub dag_vertices: Vec<VertexEntry>,
}

impl NodeState {
    /// The identifiers of the executed proposals, in the order of execution.
    pub open spec fn executed(&self) -> Seq<Seq<char>> {
        texts(self.executed_proposals@)
    }

    /// The ledger as mathematical values, oldest entry first.
    pub open spec fn ledger(&self) -> Seq<VertexEntryView> {
        ledger_view(self.dag_vertices@)
    }

    /// The document is well formed: no executed identifier is recorded twice.
    pub open spec fn wf(&self) -> bool {
        distinct(self.executed())
    }

    /// Everything but the ledger, the executed identifiers and the time of the
    /// last update is the same in `self` and `other`.
    pub open spec fn same_identity(&self, other: &NodeState) -> bool {
        &&& self.node_id@ == other.node_id@
        &&& self.initialized == other.initialized
        &&& self.last_executed_block == other.last_executed_block
        &&& self.last_proposal_id == other.last_proposal_id
        &&& self.active_connection@ == other.active_connection@
        &&& texts(self.peers@) == texts(other.peers@)
        &&& self.system_version@ == other.system_version@
    }

    /// The document of a node that starts at `now` under the identifier `node_id`.
    pub fn new(node_id: String, now: Timestamp, system_version: String) -> (s: NodeState)
        ensures
            s.wf(),
            s.node_id@ == node_id@,
            s.initialized == now,
            s.last_updated == now,
            s.last_executed_block == 0,
            s.last_proposal_id == 0,
            s.executed() == Seq::<Seq<char>>::empty(),
            s.active_connection@ == Seq::<char>::empty(),
            texts(s.peers@) == Seq::<Seq<char>>::empty(),
            s.system_version@ == system_version@,
            s.ledger() == Seq::<VertexEntryView>::empty(),
    {
        let s = NodeState {
            node_id,
            initialized: now,
            last_updated: now,
            last_executed_block: 0,
            last_proposal_id: 0,
            executed_proposals: Vec::new(),
            active_connection: String::new(),
            peers: Vec::new(),
            system_version,
            dag_vertices: Vec::new(),
        };
        assert(s.executed() =~= Seq::<Seq<char>>::empty());
        assert(texts(s.peers@) =~= Seq::<Seq<char>>::empty());
        assert(s.ledger() =~= Seq::<VertexEntryView>::empty());
        s
    }
}

/// Draws a random identifier with `uuid::Uuid::new_v4` and writes it in the
/// hyphenated form of its `Display`. Trusted; nothing is claimed of the text that
/// comes back. `uuid` gives up where the system hands out no random bytes.
#[verifier::external_body]
pub(crate) fn new_identifier() -> (id: String) {
    uuid::Uuid::new_v4().to_string()
}

/// The version that a new document records.
pub open spec fn system_version() -> Seq<char> {
    "0.1.0"@
}

impl Default for NodeState {
    /// The document of a node that starts now, under an identifier drawn at
    /// random: nothing executed, an empty ledger, no peers.
    fn default() -> (s: Self)
        ensures
            s.wf(),
            s.last_updated == s.initialized,
            s.last_executed_block == 0,
            s.last_proposal_id == 0,
            s.executed() == Seq::<Seq<char>>::empty(),
            s.active_connection@ == Seq::<char>::empty(),
            texts(s.peers@) == Seq::<Seq<char>>::empty(),
            s.system_version@ == system_version(),
            s.ledger() == Seq::<VertexEntryView>::empty(),
    {
        NodeState::new(new_identifier(), now(), String::from_str("0.1.0"))
    }
}

/// Whether `id` is among `items`.
pub fn contains_text(items: &Vec<String>, id: &str) -> (b: bool)
    ensures
        b == texts(items@).contains(id@),
{
    let mut i: usize = 0;
    while i < items.len()
        invariant
            i <= items.len(),
            forall|k: int| 0 <= k < i ==> texts(items@)[k] != id@,
        decreases items.len() - i,
    {
        if same_text(items[i].as_str(), id) {
            assert(texts(items@)[i as int] == id@);
            return true;
        }
        i = i + 1;
    }
    false
}

/// A copy of a list of strings.
pub fn copy_texts(items: &Vec<String>) -> (r: Vec<String>)
    ensures
        texts(r@) == texts(items@),
{
    let mut r: Vec<String> = Vec::new();
    let mut i: usize = 0;
    while i < items.len()
        invariant
            i <= items.len(),
            r@.len() == i,
            forall|k: int| 0 <= k < i ==> r@[k]@ == items@[k]@,
        decreases items.len() - i,
    {
        r.push(items[i].clone());
        i = i + 1;
    }
    assert(texts(r@) =~= texts(items@));
    r
}

/// Whether the proposal `proposal_id` was executed.
pub fn is_executed(state: &NodeState, proposal_id: &str) -> (b: bool)
    ensures
        b == state.executed().contains(proposal_id@),
{
    contains_text(&state.executed_proposals, proposal_id)
}

/// The identifiers of the executed proposals, as a copy.
pub fn get_executed_proposals(state: &NodeState) -> (r: Vec<String>)
    ensures
        texts(r@) == state.executed(),
{
    copy_texts(&state.executed_proposals)
}

/// Records that `proposal_id` was executed, once, and stamps the update.
pub fn add_executed_proposal(state: &mut NodeState, proposal_id: &str, now: Timestamp)
    ensures
        old(state).wf() ==> final(state).wf(),
        old(state).executed().contains(proposal_id@) ==> final(state).executed() == old(state).executed(),
        !old(state).executed().contains(proposal_id@) ==> final(state).executed()
            == old(state).executed().push(proposal_id@),
        final(state).ledger() == old(state).ledger(),
        final(state).last_updated == now,
        final(state).same_identity(old(state)),
{
    if !contains_text(&state.executed_proposals, proposal_id) {
        state.executed_proposals.push(proposal_id.to_owned());
        assert(state.executed() =~= old(state).executed().push(proposal_id@));
    }
    state.last_updated = now;
}

/// Appends `vertex` to the ledger and stamps the update. Nothing that was in the
/// ledger changes.
pub fn add_vertex(state: &mut NodeState, vertex: VertexEntry, now: Timestamp)
    ensures
        final(state).ledger() == old(state).ledger().push(vertex@),
        final(state).executed() == old(state).executed(),
        final(state).last_updated == now,
        final(state).same_identity(old(state)),
{
    state.dag_vertices.push(vertex);
    state.last_updated = now;
    assert(state.ledger() =~= old(state).ledger().push(vertex@));
}

/// The line that records a vertex in the ledger's log, `stamp` being the
/// displayed form of its time.
pub open spec fn vertex_line(stamp: Seq<char>, v: VertexEntryView) -> Seq<char> {
    stamp + " - Vertex ID: "@ + v.id + ", Proposal: "@ + v.proposal_id + ", Hash: "@ + v.hash
        + "\n"@
}

/// The line to append to the ledger's log for `vertex`, or `None` where its time
/// has no written form. The log is for people; the ledger is in the node state.
pub fn log_vertex(vertex: &VertexEntry) -> (line: Option<String>)
    ensures
        match vertex.timestamp.displayed() {
            Some(stamp) => line matches Some(l) && l@ == vertex_line(stamp, vertex@),
            None => line is None,
        },
{
    match format_display(vertex.timestamp) {
        Some(stamp) => Some(vertex_entry_line(stamp.as_str(), vertex)),
        None => None,
    }
}

/// The line that records `vertex` in the ledger's log, `stamp` being the
/// displayed form of its time.
pub fn vertex_entry_line(stamp: &str, vertex: &VertexEntry) -> (line: String)
    ensures
        line@ == vertex_line(stamp@, vertex@),
{
    let mut l = String::from_str(stamp);
    l.append(" - Vertex ID: ");
    l.append(vertex.id.as_str());
    l.append(", Proposal: ");
    l.append(vertex.proposal_id.as_str());
    l.append(", Hash: ");
    l.append(vertex.hash.as_str());
    l.append("\n");
    l
}

/// The name of the backup of the state file that is taken at the moment whose
/// compact form is `stamp`.
pub open spec fn backup_name(stamp: Seq<char>) -> Seq<char> {
    "state_"@ + stamp + ".json"@
}

/// The name of the backup that is taken of the state file now, before the file
/// is written anew, with the moment that was read from the clock and names the
/// backup.
pub fn backup_state() -> (r: (String, Timestamp))
    ensures
        r.1.compact() matches Some(stamp) && r.0@ == backup_name(stamp),
{
    let moment = now();
    let name = backup_file_name(moment).unwrap();
    (name, moment)
}

/// The name of the backup that is taken of the state file at `now`; `None` where
/// `now` has no written form.
pub fn backup_file_name(now: Timestamp) -> (name: Option<String>)
    ensures
        match now.compact() {
            Some(stamp) => name matches Some(n) && n@ == backup_name(stamp),
            None => name is None,
        },
{
    match format_compact(now, "%Y%m%d_%H%M%S") {
        Some(stamp) => Some(backup_file_for(stamp.as_str())),
        None => None,
    }
}

/// The name of the backup that is taken of the state file at the moment whose
/// compact form is `stamp`.
pub fn backup_file_for(stamp: &str) -> (name: String)
    ensures
        name@ == backup_name(stamp@),
{
    let mut n = String::from_str("state_");
    n.append(stamp);
    n.append(".json");
    n
}

/// The message of the error for a home directory that cannot be told.
pub open spec fn no_home_message() -> Seq<char> {
    "Could not determine home directory"@
}

/// The directory of the node's state, `.icn` under the home directory. Fails with
/// a `State` error where there is no home directory.
pub fn get_state_dir(home: Option<&str>) -> (r: NodeResult<String>)
    ensures
        match home {
            Some(h) => r matches Ok(dir) && dir@ == joined(h@, ".icn"@),
            None => r matches Err(NodeError::State(m)) && m@ == no_home_message(),
        },
{
    match home {
        Some(h) => Ok(join_path(h, ".icn")),
        None => Err(NodeError::State(String::from_str("Could not determine home directory"))),
    }
}

/// The file that holds the node state.
pub fn get_state_file(home: Option<&str>) -> (r: NodeResult<String>)
    ensures
        match home {
            Some(h) => r matches Ok(file) && file@ == joined(joined(h@, ".icn"@), "state.json"@),
            None => r matches Err(NodeError::State(m)) && m@ == no_home_message(),
        },
{
    match get_state_dir(home) {
        Ok(dir) => Ok(join_path(dir.as_str(), "state.json")),
        Err(e) => Err(e),
    }
}

/// The directory that holds the backups of the state file.
pub fn get_backup_dir(home: Option<&str>) -> (r: NodeResult<String>)
    ensures
        match home {
            Some(h) => r matches Ok(dir) && dir@ == joined(
                joined(joined(h@, ".icn"@), "state"@),
                "backups"@,
            ),
            None => r matches Err(NodeError::State(m)) && m@ == no_home_message(),
        },
{
    match get_state_dir(home) {
        Ok(dir) => Ok(join_path(join_path(dir.as_str(), "state").as_str(), "backups")),
        Err(e) => Err(e),
    }
}

/// An append makes the ledger longer by one and leaves every earlier entry as it
/// was.
pub proof fn lemma_append_keeps_ledger(ledger: Seq<VertexEntryView>, vertex: VertexEntryView)
    ensures
        ledger.push(vertex).len() == ledger.len() + 1,
        ledger.push(vertex).last() == vertex,
        ledger.push(vertex).take(ledger.len() as int) == ledger,
        forall|i: int| 0 <= i < ledger.len() ==> ledger.push(vertex)[i] == ledger[i],
{
    assert(ledger.push(vertex).take(ledger.len() as int) =~= ledger);
}

/// What is to be done with the state file when the node starts.
#[derive(Debug, Clone, Copy, PartialEq, Eq, Structural)]
pub enum Startup {
    /// The state file exists: the document is read from it.
    Load,
    /// There is none: the document in memory is written.
    Save,
}

/// Says whether the node starts from the state file or writes a new one.
pub fn init(state_file_exists: bool) -> (s: Startup)
    ensures
        s == if state_file_exists {
            Startup::Load
        } else {
            Startup::Save
        },
{
    if state_file_exists {
        Startup::Load
    } else {
        Startup::Save
    }
}

/// The message of the error for a backup that cannot be named.
pub open spec fn no_backup_message() -> Seq<char> {
    "Failed to create backup: the time of the backup cannot be written"@
}

/// Prepares the document for being written at `now`: the time of the update is
/// stamped, and where a state file exists already, the name is given under which
/// it is to be copied to the backup directory first. Fails with a `State` error,
/// and stamps nothing, where a backup is due and `now` has no written form.
pub fn save_state(state: &mut NodeState, state_file_exists: bool, now: Timestamp) -> (r:
    NodeResult<Option<String>>)
    ensures
        final(state).ledger() == old(state).ledger(),
        final(state).executed() == old(state).executed(),
        final(state).same_identity(old(state)),
        !state_file_exists ==> (r matches Ok(None) && final(state).last_updated == now),
        state_file_exists ==> match now.compact() {
            Some(stamp) => (r matches Ok(Some(name)) && name@ == backup_name(stamp)
                && final(state).last_updated == now),
            None => (r matches Err(NodeError::State(m)) && m@ == no_backup_message()
                && final(state).last_updated == old(state).last_updated),
        },
{
    if !state_file_exists {
        state.last_updated = now;
        return Ok(None);
    }
    match backup_file_name(now) {
        Some(name) => {
            state.last_updated = now;
            Ok(Some(name))
        },
        None => Err(
            NodeError::State(
                String::from_str(
                    "Failed to create backup: the time of the backup cannot be written",
                ),
            ),
        ),
    }
}

/// The texts of `items` without repeats: each text stands where it stood first.
pub open spec fn first_occurrences(items: Seq<Seq<char>>) -> Seq<Seq<char>>
    decreases items.len(),
{
    if items.len() == 0 {
        Seq::empty()
    } else {
        let rest = first_occurrences(items.drop_last());
        if rest.contains(items.last()) {
            rest
        } else {
            rest.push(items.last())
        }
    }
}

/// Takes in the document as it was read from the state file. What the file says
/// is kept, but for an executed identifier that the file names more than once:
/// it is recorded once, where it stood first, so that the document is well
/// formed.
pub fn load_state(document: NodeState) -> (s: NodeState)
    ensures
        s.wf(),
        s.executed() == first_occurrences(document.executed()),
        s.ledger() == document.ledger(),
        s.last_updated == document.last_updated,
        s.same_identity(&document),
{
    let mut kept: Vec<String> = Vec::new();
    let mut i: usize = 0;
    proof {
        assert(document.executed().take(0) =~= Seq::<Seq<char>>::empty());
        assert(texts(kept@) =~= Seq::<Seq<char>>::empty());
    }
    while i < document.executed_proposals.len()
        invariant
            i <= document.executed_proposals.len(),
            texts(kept@) == first_occurrences(document.executed().take(i as int)),
            distinct(texts(kept@)),
        decreases document.executed_proposals.len() - i,
    {
        let ghost before = texts(kept@);
        proof {
            let next = document.executed().take(i + 1);
            assert(next.drop_last() =~= document.executed().take(i as int));
            assert(next.last() == document.executed_proposals@[i as int]@);
        }
        if !contains_text(&kept, document.executed_proposals[i].as_str()) {
            kept.push(document.executed_proposals[i].clone());
            proof {
                let after = texts(kept@);
                assert(after =~= before.push(document.executed_proposals@[i as int]@));
                assert forall|a: int, b: int| 0 <= a < b < after.len() implies after[a]
                    != after[b] by {
                    if b == after.len() - 1 {
                        assert(before.contains(before[a]));
                    }
                }
            }
        }
        i = i + 1;
    }
    assert(document.executed().take(document.executed().len() as int) =~= document.executed());
    let mut s = document;
    s.executed_proposals = kept;
    s
}

} // verus!
