//! The proposal queue: file names that carry an identifier and a status, and the
//! rules by which a status may change.

use vstd::prelude::*;
use crate::error::{NodeError, NodeResult};
use crate::federation::{shell_failure, tool_failure_message, ToolRun};
use crate::clock::{format_display, now, Timestamp};
use crate::state::{contains_text, texts, NodeState};
use crate::text::{
    chars_of, ends_with, find_from, is_prefix, is_suffix, lemma_lex_total, lemma_lex_transitive,
    lex_le, same_text, slice_chars, starts_with, text_le, until, count_marked_lines, marked_lines,
    join_path, joined,
};

verus! {

/// A unit of governance work. Its identifier comes from the name of its file.
#[derive(Debug)]
pub struct Proposal {
    pub id: String,
    pub title: String,
    pub content: String,
    pub status: ProposalStatus,
}

/// Where a proposal stands in its life.
#[derive(Debug, Clone, Copy, PartialEq, Eq, Structural)]
pub enum ProposalStatus {
    Pending,
    Executing,
    Completed,
    Failed,
    Rejected,
}

impl ProposalStatus {
    /// A status that no change leads out of.
    pub open spec fn is_terminal(self) -> bool {
        self == ProposalStatus::Completed || self == ProposalStatus::Failed || self
            == ProposalStatus::Rejected
    }

    /// The changes of status that the life of a proposal allows: from pending to
    /// rejected or executing, from executing to completed or failed.
    pub open spec fn may_become(self, next: ProposalStatus) -> bool {
        match self {
            ProposalStatus::Pending => next == ProposalStatus::Rejected || next
                == ProposalStatus::Executing,
            ProposalStatus::Executing => next == ProposalStatus::Completed || next
                == ProposalStatus::Failed,
            _ => false,
        }
    }

    /// The word that stands for the status in a file name.
    pub open spec fn word(self) -> Seq<char> {
        match self {
            ProposalStatus::Pending => "pending"@,
            ProposalStatus::Executing => "executing"@,
            ProposalStatus::Completed => "completed"@,
            ProposalStatus::Failed => "failed"@,
            ProposalStatus::Rejected => "rejected"@,
        }
    }

    /// The word that stands for the status in a file name.
    pub fn name(self) -> (w: &'static str)
        ensures
            w@ == self.word(),
    {
        match self {
            ProposalStatus::Pending => "pending",
            ProposalStatus::Executing => "executing",
            ProposalStatus::Completed => "completed",
            ProposalStatus::Failed => "failed",
            ProposalStatus::Rejected => "rejected",
        }
    }

    /// Whether no change leads out of this status.
    pub fn terminal(self) -> (b: bool)
        ensures
            b == self.is_terminal(),
    {
        match self {
            ProposalStatus::Completed | ProposalStatus::Failed | ProposalStatus::Rejected => true,
            _ => false,
        }
    }

    /// Whether a proposal in this status may pass to `next`.
    pub fn can_become(self, next: ProposalStatus) -> (b: bool)
        ensures
            b == self.may_become(next),
    {
        match self {
            ProposalStatus::Pending => next == ProposalStatus::Rejected || next
                == ProposalStatus::Executing,
            ProposalStatus::Executing => next == ProposalStatus::Completed || next
                == ProposalStatus::Failed,
            _ => false,
        }
    }
}

/// The identifier that a file name carries: the name begins with `proposal_`, and
/// the identifier runs from there to the next underscore or to the end of the name.
/// A name that does not begin so carries none.
pub open spec fn proposal_id_of(name: Seq<char>) -> Option<Seq<char>> {
    if is_prefix("proposal_"@, name) {
        Some(until(name.skip("proposal_"@.len() as int), '_'))
    } else {
        None
    }
}

/// The name of the file that holds the proposal `id` in the status `status`.
pub open spec fn status_file_name(id: Seq<char>, status: ProposalStatus) -> Seq<char> {
    "proposal_"@ + id + "_"@ + status.word() + ".dsl"@
}

/// The message of the error for a file name that carries no identifier.
pub open spec fn invalid_name_message(name: Seq<char>) -> Seq<char> {
    "Invalid proposal filename format: "@ + name
}

/// Reads the proposal identifier out of a file name.
pub fn extract_proposal_id(filename: &str) -> (r: NodeResult<String>)
    ensures
        match proposal_id_of(filename@) {
            Some(id) => r matches Ok(s) && s@ == id,
            None => r matches Err(NodeError::Queue(m)) && m@ == invalid_name_message(filename@),
        },
{
    let name = chars_of(filename);
    let lead = chars_of("proposal_");
    if starts_with(&name, &lead) {
        let from: usize = lead.len();
        let to: usize = find_from(&name, '_', from);
        Ok(filename.substring_char(from, to).to_owned())
    } else {
        let mut m = String::from_str("Invalid proposal filename format: ");
        m.append(filename);
        Err(NodeError::Queue(m))
    }
}

/// Writes the name of the file that holds the proposal `id` in the status `status`.
pub fn build_file_name(id: &str, status: ProposalStatus) -> (name: String)
    ensures
        name@ == status_file_name(id@, status),
{
    let mut name = String::from_str("proposal_");
    name.append(id);
    name.append("_");
    name.append(status.name());
    name.append(".dsl");
    name
}

/// The status that a file stands in by its name: the one that the name records,
/// and pending for a name that records none.
pub open spec fn standing_status(name: Seq<char>) -> ProposalStatus {
    match file_status(name) {
        Some(s) => s,
        None => ProposalStatus::Pending,
    }
}

/// The message of the error for a change of status that the life of a proposal
/// does not allow.
pub open spec fn refused_change_message(
    from: ProposalStatus,
    to: ProposalStatus,
    name: Seq<char>,
) -> Seq<char> {
    "Proposal status cannot change from "@ + from.word() + " to "@ + to.word() + ": "@ + name
}

/// The name under which the file `filename` records the status `status`: the
/// caller renames the file to it. Fails with a `Queue` error where `filename`
/// carries no identifier, and where the status that the file stands in may not
/// become `status`: no name is given that would take a proposal out of a
/// terminal status, or past a step of its life.
pub fn update_proposal_status(filename: &str, status: ProposalStatus) -> (r: NodeResult<String>)
    ensures
        match proposal_id_of(filename@) {
            Some(id) => if standing_status(filename@).may_become(status) {
                r matches Ok(s) && s@ == status_file_name(id, status)
            } else {
                r matches Err(NodeError::Queue(m)) && m@ == refused_change_message(
                    standing_status(filename@),
                    status,
                    filename@,
                )
            },
            None => r matches Err(NodeError::Queue(m)) && m@ == invalid_name_message(filename@),
        },
{
    match extract_proposal_id(filename) {
        Ok(id) => {
            let current = match status_of_file(filename) {
                Some(s) => s,
                None => ProposalStatus::Pending,
            };
            if current.can_become(status) {
                Ok(build_file_name(id.as_str(), status))
            } else {
                let mut m = String::from_str("Proposal status cannot change from ");
                m.append(current.name());
                m.append(" to ");
                m.append(status.name());
                m.append(": ");
                m.append(filename);
                Err(NodeError::Queue(m))
            }
        },
        Err(e) => Err(e),
    }
}

/// The status that a file name records, or `None` for a name that is no proposal
/// file. A name `proposal_<id>_<status>.dsl` records that status; every other name
/// that ends in `.dsl` stands for a pending proposal.
pub open spec fn file_status(name: Seq<char>) -> Option<ProposalStatus> {
    if !is_suffix(".dsl"@, name) {
        None
    } else {
        match proposal_id_of(name) {
            Some(id) => if name == status_file_name(id, ProposalStatus::Executing) {
                Some(ProposalStatus::Executing)
            } else if name == status_file_name(id, ProposalStatus::Completed) {
                Some(ProposalStatus::Completed)
            } else if name == status_file_name(id, ProposalStatus::Failed) {
                Some(ProposalStatus::Failed)
            } else if name == status_file_name(id, ProposalStatus::Rejected) {
                Some(ProposalStatus::Rejected)
            } else {
                Some(ProposalStatus::Pending)
            },
            None => Some(ProposalStatus::Pending),
        }
    }
}

/// Reads the status that a file name records.
pub fn status_of_file(filename: &str) -> (r: Option<ProposalStatus>)
    ensures
        r == file_status(filename@),
{
    let name = chars_of(filename);
    let ext = chars_of(".dsl");
    if !ends_with(&name, &ext) {
        return None;
    }
    match extract_proposal_id(filename) {
        Ok(id) => {
            if same_text(build_file_name(id.as_str(), ProposalStatus::Executing).as_str(), filename) {
                Some(ProposalStatus::Executing)
            } else if same_text(
                build_file_name(id.as_str(), ProposalStatus::Completed).as_str(),
                filename,
            ) {
                Some(ProposalStatus::Completed)
            } else if same_text(
                build_file_name(id.as_str(), ProposalStatus::Failed).as_str(),
                filename,
            ) {
                Some(ProposalStatus::Failed)
            } else if same_text(
                build_file_name(id.as_str(), ProposalStatus::Rejected).as_str(),
                filename,
            ) {
                Some(ProposalStatus::Rejected)
            } else {
                Some(ProposalStatus::Pending)
            }
        },
        Err(_) => Some(ProposalStatus::Pending),
    }
}

/// The name stands for a pending proposal.
pub open spec fn is_pending_name(name: Seq<char>) -> bool {
    file_status(name) == Some(ProposalStatus::Pending)
}

/// The text by which a sweep orders a file: its proposal identifier, or the whole
/// name where it carries none.
pub open spec fn sweep_key(name: Seq<char>) -> Seq<char> {
    match proposal_id_of(name) {
        Some(id) => id,
        None => name,
    }
}

/// The names are in the order of their identifiers.
pub open spec fn sorted_by_id(names: Seq<Seq<char>>) -> bool {
    forall|i: int, j: int|
        0 <= i < j < names.len() ==> lex_le(sweep_key(#[trigger] names[i]), sweep_key(#[trigger] names[j]))
}

/// Those of `names` that stand for a pending proposal, in their order.
pub open spec fn pending_names(names: Seq<Seq<char>>) -> Seq<Seq<char>> {
    names.filter(|n: Seq<char>| is_pending_name(n))
}

proof fn lemma_pending_push(names: Seq<Seq<char>>, n: Seq<char>)
    ensures
        pending_names(names.push(n)) == if is_pending_name(n) {
            pending_names(names).push(n)
        } else {
            pending_names(names)
        },
{
    names.lemma_filter_push(n, |n: Seq<char>| is_pending_name(n));
}

fn sweep_key_of(filename: &str) -> (key: Vec<char>)
    ensures
        key@ == sweep_key(filename@),
{
    let name = chars_of(filename);
    let lead = chars_of("proposal_");
    if starts_with(&name, &lead) {
        let from: usize = lead.len();
        let to: usize = find_from(&name, '_', from);
        slice_chars(&name, from, to)
    } else {
        name
    }
}

/// The files of a directory listing that stand for pending proposals, in the order
/// of their identifiers: what a sweep of the queue works through.
pub fn list_pending(listing: &Vec<String>) -> (r: Vec<String>)
    ensures
        texts(r@).to_multiset() == pending_names(texts(listing@)).to_multiset(),
        sorted_by_id(texts(r@)),
{
    let mut out: Vec<String> = Vec::new();
    let mut keys: Vec<Vec<char>> = Vec::new();
    let mut i: usize = 0;
    proof {
        assert(texts(listing@).take(0) =~= Seq::<Seq<char>>::empty());
        assert(texts(out@) =~= Seq::<Seq<char>>::empty());
        assert(pending_names(Seq::<Seq<char>>::empty()) =~= Seq::<Seq<char>>::empty()) by {
            reveal(Seq::filter);
        }
    }
    while i < listing.len()
        invariant
            i <= listing.len(),
            keys@.len() == out@.len(),
            forall|k: int| 0 <= k < out@.len() ==> (#[trigger] keys@[k])@ == sweep_key(out@[k]@),
            sorted_by_id(texts(out@)),
            texts(out@).to_multiset() == pending_names(
                texts(listing@).take(i as int),
            ).to_multiset(),
        decreases listing.len() - i,
    {
        let name = &listing[i];
        proof {
            assert(texts(listing@).take(i + 1) =~= texts(listing@).take(i as int).push(name@));
            lemma_pending_push(texts(listing@).take(i as int), name@);
        }
        if status_of_file(name.as_str()) == Some(ProposalStatus::Pending) {
            let key = sweep_key_of(name.as_str());
            let mut j: usize = 0;
            while j < keys.len() && text_le(&keys[j], &key)
                invariant
                    j <= keys.len(),
                    forall|k: int| 0 <= k < j ==> lex_le((#[trigger] keys@[k])@, key@),
                decreases keys.len() - j,
            {
                j = j + 1;
            }
            let ghost before = texts(out@);
            proof {
                assert forall|b: int| j <= b < keys@.len() implies lex_le(
                    key@,
                    (#[trigger] keys@[b])@,
                ) by {
                    lemma_lex_total(keys@[j as int]@, key@);
                    if b > j {
                        assert(lex_le(sweep_key(before[j as int]), sweep_key(before[b])));
                        lemma_lex_transitive(key@, keys@[j as int]@, keys@[b]@);
                    }
                }
            }
            out.insert(j, name.clone());
            keys.insert(j, key);
            proof {
                let after = texts(out@);
                assert(after =~= before.insert(j as int, name@));
                vstd::seq_lib::to_multiset_insert(before, j as int, name@);
                vstd::seq_lib::to_multiset_build(
                    pending_names(texts(listing@).take(i as int)),
                    name@,
                );
                assert forall|a: int, b: int| 0 <= a < b < after.len() implies lex_le(
                    sweep_key(#[trigger] after[a]),
                    sweep_key(#[trigger] after[b]),
                ) by {
                    if a < j && b > j {
                        assert(lex_le(sweep_key(before[a]), sweep_key(before[b - 1])));
                    } else if a < j && b == j {
                        assert(lex_le(keys@[a]@, keys@[j as int]@));
                    } else if a == j {
                        assert(lex_le(keys@[j as int]@, keys@[b]@));
                    } else if b < j {
                        assert(lex_le(sweep_key(before[a]), sweep_key(before[b])));
                    } else {
                        assert(lex_le(sweep_key(before[a - 1]), sweep_key(before[b - 1])));
                    }
                }
            }
        }
        i = i + 1;
    }
    assert(texts(listing@).take(listing@.len() as int) =~= texts(listing@));
    out
}

/// A sweep of the queue: the pending files in the order of their identifiers, and
/// how far the sweep has come.
#[derive(Debug)]
pub struct Sweep {
    pub files: Vec<String>,
    /// The position of the file that is being executed, or that is looked at next.
    pub position: usize,
    /// Whether the outcome of an execution is awaited.
    pub awaiting: bool,
    /// How many proposals this sweep has executed with success.
    pub processed: u32,
}

/// What the caller reports to a sweep.
#[derive(Debug, Clone, Copy, PartialEq, Eq, Structural)]
pub enum SweepEvent {
    /// Nothing to report: the sweep begins, or goes on.
    Next,
    /// The execution that the sweep asked for succeeded.
    Executed,
    /// The execution that the sweep asked for ended in an error. The coordinator
    /// has given the proposal its last status; the sweep goes on.
    ExecutionFailed,
}

/// What the caller is to do next for a sweep.
#[derive(Debug)]
pub enum SweepAction {
    /// Execute the proposal in `file`, with validation, and report the outcome.
    Execute { file: String, proposal_id: String },
    /// The sweep is over; `processed` proposals were executed with success.
    Finish { processed: u32 },
    /// The sweep ends with an error.
    Abort { error: NodeError },
}

/// The first position at or after `p` whose file is not that of an executed
/// proposal: a file to execute, a file whose name carries no identifier, or the
/// end of the list.
pub open spec fn stop_at(files: Seq<Seq<char>>, executed: Seq<Seq<char>>, p: int) -> int
    decreases files.len() - p,
{
    if p < 0 || p >= files.len() {
        p
    } else {
        match proposal_id_of(files[p]) {
            Some(id) => if executed.contains(id) {
                stop_at(files, executed, p + 1)
            } else {
                p
            },
            None => p,
        }
    }
}

/// Every pending file of a directory listing is among the files of a sweep of
/// it, and a sweep stops at the file of a proposal that was not executed: the
/// proposal of a pending file is executed by the sweep that finds it.
pub proof fn lemma_pending_file_is_swept(
    listing: Seq<Seq<char>>,
    files: Seq<Seq<char>>,
    executed: Seq<Seq<char>>,
    name: Seq<char>,
)
    requires
        files.to_multiset() == pending_names(listing).to_multiset(),
        listing.contains(name),
        is_pending_name(name),
    ensures
        files.contains(name),
        forall|p: int|
            0 <= p < files.len() && files[p] == name && (proposal_id_of(name) matches Some(id)
                && !executed.contains(id)) ==> stop_at(files, executed, p) == p,
{
    let k = choose|k: int| 0 <= k < listing.len() && listing[k] == name;
    listing.lemma_filter_contains(|n: Seq<char>| is_pending_name(n), k);
    vstd::seq_lib::to_multiset_contains(pending_names(listing), name);
    vstd::seq_lib::to_multiset_contains(files, name);
}

/// Where a sweep stops, it has passed over nothing but files of executed
/// proposals, and the file it stops at is not one of them: a sweep never asks
/// for the execution of a proposal that was executed.
pub proof fn lemma_sweep_skips_only_executed(
    files: Seq<Seq<char>>,
    executed: Seq<Seq<char>>,
    p: int,
)
    requires
        0 <= p <= files.len(),
    ensures
        p <= stop_at(files, executed, p) <= files.len(),
        forall|k: int|
            p <= k < stop_at(files, executed, p) ==> (proposal_id_of(#[trigger] files[k])
                matches Some(id) && executed.contains(id)),
        stop_at(files, executed, p) < files.len() ==> (proposal_id_of(
            files[stop_at(files, executed, p)],
        ) matches Some(id) ==> !executed.contains(id)),
    decreases files.len() - p,
{
    if p < files.len() {
        match proposal_id_of(files[p]) {
            Some(id) => {
                if executed.contains(id) {
                    lemma_sweep_skips_only_executed(files, executed, p + 1);
                }
            },
            None => {},
        }
    }
}

impl Sweep {
    /// The names of the files of the sweep.
    pub open spec fn names(&self) -> Seq<Seq<char>> {
        texts(self.files@)
    }

    /// The sweep awaits the outcome of the execution of the file at `position`.
    pub open spec fn busy(&self) -> bool {
        self.awaiting && self.position < self.files@.len()
    }

    /// Where the sweep goes on after `event`: behind the file at `position` when
    /// the outcome of its execution is reported, else at `position`.
    pub open spec fn resume_at(&self, event: SweepEvent) -> int {
        if self.busy() && event != SweepEvent::Next {
            self.position + 1
        } else {
            self.position as int
        }
    }

    /// The count of successes after `event`.
    pub open spec fn tally(&self, event: SweepEvent) -> u32 {
        if self.busy() && event == SweepEvent::Executed && self.processed < u32::MAX {
            (self.processed + 1) as u32
        } else {
            self.processed
        }
    }

    /// Begins a sweep over the files of a directory listing.
    pub fn begin(listing: &Vec<String>) -> (s: Sweep)
        ensures
            s.names().to_multiset() == pending_names(texts(listing@)).to_multiset(),
            sorted_by_id(s.names()),
            s.position == 0,
            !s.awaiting,
            s.processed == 0,
    {
        Sweep { files: list_pending(listing), position: 0, awaiting: false, processed: 0 }
    }
}

/// Takes the sweep one step on and says what is to be done.
///
/// A reported success is counted. The sweep then passes over the files of
/// proposals that were executed, and stops at the first other file: it asks for
/// its execution, or ends with a `Queue` error where the file's name carries no
/// identifier; at the end of the list it finishes with the count of successes.
pub fn process_queue(sweep: &mut Sweep, state: &NodeState, event: SweepEvent) -> (action:
    SweepAction)
    ensures
        final(sweep).names() == old(sweep).names(),
        final(sweep).position == stop_at(
            old(sweep).names(),
            state.executed(),
            old(sweep).resume_at(event),
        ),
        final(sweep).processed == old(sweep).tally(event),
        final(sweep).position >= old(sweep).names().len() ==> {
            &&& !final(sweep).awaiting
            &&& action matches SweepAction::Finish { processed }
            &&& processed == final(sweep).processed
        },
        final(sweep).position < old(sweep).names().len() ==> match proposal_id_of(
            old(sweep).names()[final(sweep).position as int],
        ) {
            Some(id) => (action matches SweepAction::Execute { file, proposal_id } && file@
                == old(sweep).names()[final(sweep).position as int] && proposal_id@ == id
                && final(sweep).awaiting),
            None => (action matches SweepAction::Abort { error: NodeError::Queue(m) } && m@
                == invalid_name_message(old(sweep).names()[final(sweep).position as int])
                && !final(sweep).awaiting),
        },
{
    let n: usize = sweep.files.len();
    let busy = sweep.awaiting && sweep.position < n;
    if busy && event != SweepEvent::Next {
        sweep.position = sweep.position + 1;
        if event == SweepEvent::Executed && sweep.processed < u32::MAX {
            sweep.processed = sweep.processed + 1;
        }
    }
    sweep.awaiting = false;
    let ghost start = sweep.position as int;
    while sweep.position < n
        invariant
            n == sweep.files@.len(),
            start == old(sweep).resume_at(event),
            sweep.names() == old(sweep).names(),
            sweep.processed == old(sweep).tally(event),
            !sweep.awaiting,
            start <= sweep.position,
            start <= n ==> sweep.position <= n,
            stop_at(sweep.names(), state.executed(), start) == stop_at(
                sweep.names(),
                state.executed(),
                sweep.position as int,
            ),
        decreases n - sweep.position,
    {
        let file = sweep.files[sweep.position].clone();
        match extract_proposal_id(file.as_str()) {
            Ok(proposal_id) => {
                if contains_text(&state.executed_proposals, proposal_id.as_str()) {
                    sweep.position = sweep.position + 1;
                } else {
                    sweep.awaiting = true;
                    return SweepAction::Execute { file, proposal_id };
                }
            },
            Err(error) => {
                return SweepAction::Abort { error };
            },
        }
    }
    SweepAction::Finish { processed: sweep.processed }
}

/// The kind of a change that the watcher of the queue directory reports.
#[derive(Debug, Clone, Copy, PartialEq, Eq, Structural)]
pub enum ChangeKind {
    Create,
    Modify,
    Remove,
    Access,
    Other,
}

/// The change concerns a proposal file that is new or was written: the kind is a
/// creation or a modification, and the file's name ends in `.dsl` behind at least
/// one other character.
pub open spec fn concerns_proposal(kind: ChangeKind, filename: Seq<char>) -> bool {
    (kind == ChangeKind::Create || kind == ChangeKind::Modify) && is_suffix(".dsl"@, filename)
        && filename.len() > ".dsl"@.len()
}

/// The notice of a new proposal file.
pub open spec fn file_notice(filename: Seq<char>) -> Seq<char> {
    "New proposal file: "@ + filename
}

/// Looks at one change in the queue directory. For a proposal file that is new
/// or was written it gives the notice to publish, and the file is to be
/// dispatched; every other change gives `None` and is passed over.
pub fn watch_queue(kind: ChangeKind, filename: &str) -> (notice: Option<String>)
    ensures
        concerns_proposal(kind, filename@) ==> (notice matches Some(n) && n@ == file_notice(
            filename@,
        )),
        !concerns_proposal(kind, filename@) ==> notice is None,
{
    if kind == ChangeKind::Create || kind == ChangeKind::Modify {
        let name = chars_of(filename);
        let ext = chars_of(".dsl");
        if ends_with(&name, &ext) && name.len() > ext.len() {
            let mut n = String::from_str("New proposal file: ");
            n.append(filename);
            return Some(n);
        }
    }
    None
}

/// The line that records the rejection of `proposal_id` for `reason` at the
/// moment whose displayed form is `stamp`.
pub open spec fn rejection_line(stamp: Seq<char>, proposal_id: Seq<char>, reason: Seq<char>) -> Seq<
    char,
> {
    stamp + " - Rejected proposal: "@ + proposal_id + ", Reason: "@ + reason + "\n"@
}

/// The line to append to the rejection log for a proposal that is rejected now,
/// with the moment that was read from the clock and stands at the line's
/// beginning.
pub fn log_rejected_proposal(proposal_id: &str, reason: &str) -> (r: (String, Timestamp))
    ensures
        r.1.displayed() matches Some(stamp) && r.0@ == rejection_line(
            stamp,
            proposal_id@,
            reason@,
        ),
{
    let moment = now();
    let line = rejection_entry(proposal_id, reason, moment).unwrap();
    (line, moment)
}

/// The line to append to the rejection log for a proposal that was rejected at
/// `now`, or `None` where `now` has no written form.
pub fn rejection_entry(proposal_id: &str, reason: &str, now: Timestamp) -> (line: Option<String>)
    ensures
        match now.displayed() {
            Some(stamp) => line matches Some(l) && l@ == rejection_line(
                stamp,
                proposal_id@,
                reason@,
            ),
            None => line is None,
        },
{
    match format_display(now) {
        Some(stamp) => Some(rejection_line_for(stamp.as_str(), proposal_id, reason)),
        None => None,
    }
}

/// The line that records the rejection of `proposal_id` for `reason` at the
/// moment whose displayed form is `stamp`.
pub fn rejection_line_for(stamp: &str, proposal_id: &str, reason: &str) -> (line: String)
    ensures
        line@ == rejection_line(stamp@, proposal_id@, reason@),
{
    let mut l = String::from_str(stamp);
    l.append(" - Rejected proposal: ");
    l.append(proposal_id);
    l.append(", Reason: ");
    l.append(reason);
    l.append("\n");
    l
}

/// The words by which the synchronisation tool reports one proposal that it has
/// added to the queue.
pub open spec fn sync_marker() -> Seq<char> {
    "Proposal validated and added to queue"@
}

/// The count of the lines of `output` that report an addition, up to the
/// greatest `u32`.
pub open spec fn synced_count(output: Seq<char>) -> u32 {
    if marked_lines(output, sync_marker()) <= u32::MAX {
        marked_lines(output, sync_marker()) as u32
    } else {
        u32::MAX
    }
}

/// The number of proposals that the synchronisation tool has added to the queue,
/// read from what it printed: one for each line that reports an addition. `run`
/// tells how the tool ended, or is `None` where the tool is not installed, which
/// counts as nothing added. A tool that ended without success gives a
/// `ShellCommand` error with its words and its exit code.
pub fn sync_agoranet(run: Option<&ToolRun>) -> (r: NodeResult<u32>)
    ensures
        match run {
            Some(t) => if t.success {
                r matches Ok(n) && n == synced_count(t.stdout@)
            } else {
                r matches Err(NodeError::ShellCommand { message, code }) && message@
                    == tool_failure_message("AgoraNet sync failed"@, t.stderr@) && code == match t.code {
                    Some(n) => n,
                    None => -1i32,
                }
            },
            None => r matches Ok(n) && n == 0,
        },
{
    match run {
        Some(t) => if t.success {
            Ok(
                count_marked_lines(
                    &chars_of(t.stdout.as_str()),
                    &chars_of("Proposal validated and added to queue"),
                ),
            )
        } else {
            Err(shell_failure("AgoraNet sync failed", t.stderr.as_str(), t.code))
        },
        None => Ok(0),
    }
}

/// The directory that holds the pending, executing, failed and rejected
/// proposals, under the state directory `state_dir`.
pub fn get_queue_dir(state_dir: &str) -> (dir: String)
    ensures
        dir@ == joined(state_dir@, "queue"@),
{
    join_path(state_dir, "queue")
}

/// The directory that holds the archive of completed proposals.
pub fn get_executed_dir(state_dir: &str) -> (dir: String)
    ensures
        dir@ == joined(state_dir@, "executed"@),
{
    join_path(state_dir, "executed")
}

/// The file that holds the log of rejections.
pub fn get_rejected_log(state_dir: &str) -> (file: String)
    ensures
        file@ == joined(joined(state_dir@, "logs"@), "rejected.log"@),
{
    join_path(join_path(state_dir, "logs").as_str(), "rejected.log")
}

proof fn lemma_words_differ(s: ProposalStatus, t: ProposalStatus)
    requires
        s != t,
    ensures
        s.word().len() > 0,
        t.word().len() > 0,
        s.word().len() != t.word().len() || s.word()[0] != t.word()[0],
{
    reveal_strlit("pending");
    reveal_strlit("executing");
    reveal_strlit("completed");
    reveal_strlit("failed");
    reveal_strlit("rejected");
}

/// The names that record two different statuses of one proposal are different.
pub proof fn lemma_status_names_differ(id: Seq<char>, s: ProposalStatus, t: ProposalStatus)
    requires
        s != t,
    ensures
        status_file_name(id, s) != status_file_name(id, t),
{
    lemma_words_differ(s, t);
    let a = status_file_name(id, s);
    let b = status_file_name(id, t);
    let k = "proposal_"@.len() + id.len() + "_"@.len();
    assert(a.len() == k + s.word().len() + ".dsl"@.len());
    assert(b.len() == k + t.word().len() + ".dsl"@.len());
    assert(a[k as int] == s.word()[0]);
    assert(b[k as int] == t.word()[0]);
}

/// An identifier without an underscore is read back from every name that is
/// built with it, and so is the status.
pub proof fn lemma_file_name_round_trip(id: Seq<char>, status: ProposalStatus)
    requires
        !id.contains('_'),
    ensures
        proposal_id_of(status_file_name(id, status)) == Some(id),
        file_status(status_file_name(id, status)) == Some(status),
{
    reveal_strlit("proposal_");
    reveal_strlit("_");
    reveal_strlit(".dsl");
    let name = status_file_name(id, status);
    let lead = "proposal_"@;
    let tail = name.skip(lead.len() as int);
    assert(name.subrange(0, lead.len() as int) =~= lead);
    assert(tail =~= id + "_"@ + status.word() + ".dsl"@);
    assert forall|k: int| 0 <= k < id.len() implies tail[k] != '_' by {
        assert(tail[k] == id[k]);
        assert(id.contains(id[k]));
    }
    assert(tail[id.len() as int] == '_');
    crate::text::lemma_until_is_subrange(tail, '_', id.len() as int);
    assert(tail.subrange(0, id.len() as int) =~= id);
    assert(name.subrange(name.len() - ".dsl"@.len(), name.len() as int) =~= ".dsl"@);
    if status != ProposalStatus::Executing {
        lemma_status_names_differ(id, status, ProposalStatus::Executing);
    }
    if status != ProposalStatus::Completed {
        lemma_status_names_differ(id, status, ProposalStatus::Completed);
    }
    if status != ProposalStatus::Failed {
        lemma_status_names_differ(id, status, ProposalStatus::Failed);
    }
    if status != ProposalStatus::Rejected {
        lemma_status_names_differ(id, status, ProposalStatus::Rejected);
    }
}

/// The names in a directory after the file `from` was renamed to `to`: `from` is
/// gone, and `to` is there, in place of any file that had the name before.
pub open spec fn renamed(names: Set<Seq<char>>, from: Seq<char>, to: Seq<char>) -> Set<Seq<char>> {
    names.remove(from).insert(to)
}

/// After a change of status that `update_proposal_status` allows, and the
/// rename of the file `name` of the proposal `id` to the name it gives, one file
/// of the directory records the new status for that proposal: it bears the name
/// built for it, and the name that was left is gone. Where no file had the new
/// name before, the directory holds as many files as it did.
pub proof fn lemma_rename_records_one_status(
    names: Set<Seq<char>>,
    name: Seq<char>,
    id: Seq<char>,
    status: ProposalStatus,
)
    requires
        names.contains(name),
        proposal_id_of(name) == Some(id),
        standing_status(name).may_become(status),
    ensures
        ({
            let target = status_file_name(id, status);
            let after = renamed(names, name, target);
            &&& after.contains(target)
            &&& file_status(target) == Some(status)
            &&& proposal_id_of(target) == Some(id)
            &&& !after.contains(name)
            &&& forall|other: Seq<char>|
                after.contains(other) && proposal_id_of(other) == Some(id) && file_status(other)
                    == Some(status) ==> other == target
            &&& names.finite() && !names.contains(target) ==> after.len() == names.len()
        }),
{
    crate::text::lemma_until_excludes(name.skip("proposal_"@.len() as int), '_');
    lemma_file_name_round_trip(id, status);
}

/// After a run that succeeds, the file of the proposal has left the name under
/// which it was pending and the name under which it was executing: renamed
/// first to record the execution and then the completion, it is in the queue
/// under the name of the completed proposal, and the archive holds a file of
/// that name.
pub proof fn lemma_completed_run_moves_the_file(
    queue: Set<Seq<char>>,
    archive: Set<Seq<char>>,
    name: Seq<char>,
    id: Seq<char>,
)
    requires
        queue.contains(name),
        proposal_id_of(name) == Some(id),
        standing_status(name) == ProposalStatus::Pending,
    ensures
        ({
            let executing = status_file_name(id, ProposalStatus::Executing);
            let completed = status_file_name(id, ProposalStatus::Completed);
            let after = renamed(renamed(queue, name, executing), executing, completed);
            &&& after.contains(completed)
            &&& !after.contains(name)
            &&& !after.contains(executing)
            &&& archive.insert(completed).contains(completed)
            &&& file_status(completed) == Some(ProposalStatus::Completed)
            &&& proposal_id_of(completed) == Some(id)
        }),
{
    crate::text::lemma_until_excludes(name.skip("proposal_"@.len() as int), '_');
    lemma_file_name_round_trip(id, ProposalStatus::Executing);
    lemma_file_name_round_trip(id, ProposalStatus::Completed);
    lemma_status_names_differ(id, ProposalStatus::Executing, ProposalStatus::Completed);
}

/// A rejection adds one line to the rejection log and leaves what the log held:
/// the line holds the identifier of the proposal and the reason, and ends in a
/// line feed, which is its only one where the moment, the identifier and the
/// reason hold none.
pub proof fn lemma_rejection_is_logged_once(
    log: Seq<Seq<char>>,
    stamp: Seq<char>,
    proposal_id: Seq<char>,
    reason: Seq<char>,
)
    ensures
        ({
            let line = rejection_line(stamp, proposal_id, reason);
            let after = log.push(line);
            &&& after.len() == log.len() + 1
            &&& after.take(log.len() as int) == log
            &&& after.last() == line
            &&& crate::text::has_substring(line, proposal_id)
            &&& crate::text::has_substring(line, reason)
            &&& line.len() > 0 && line.last() == '\n'
            &&& !stamp.contains('\n') && !proposal_id.contains('\n') && !reason.contains('\n')
                ==> forall|k: int| 0 <= k < line.len() - 1 ==> line[k] != '\n'
        }),
{
    reveal_strlit(" - Rejected proposal: ");
    reveal_strlit(", Reason: ");
    reveal_strlit("\n");
    let a = " - Rejected proposal: "@;
    let b = ", Reason: "@;
    let line = rejection_line(stamp, proposal_id, reason);
    let at_id: int = (stamp.len() + a.len()) as int;
    let at_reason: int = at_id + proposal_id.len() + b.len();
    assert(log.push(line).take(log.len() as int) =~= log);
    assert(line.subrange(at_id, at_id + proposal_id.len()) =~= proposal_id);
    assert(crate::text::occurs_at(proposal_id, line, at_id));
    assert(line.subrange(at_reason, at_reason + reason.len()) =~= reason);
    assert(crate::text::occurs_at(reason, line, at_reason));
    if !stamp.contains('\n') && !proposal_id.contains('\n') && !reason.contains('\n') {
        assert forall|k: int| 0 <= k < line.len() - 1 implies line[k] != '\n' by {
            if k < stamp.len() {
                assert(stamp.contains(stamp[k]));
            } else if k < at_id {
                assert(line[k] == a[k - stamp.len()]);
            } else if k < at_id + proposal_id.len() {
                assert(proposal_id.contains(proposal_id[k - at_id]));
            } else if k < at_reason {
                assert(line[k] == b[k - at_id - proposal_id.len()]);
            } else {
                assert(reason.contains(reason[k - at_reason]));
            }
        }
    }
}

} // verus!
