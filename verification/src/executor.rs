//! The execution coordinator: what to do with a proposal at each point of its
//! life, and what to record when the engine has run.

use vstd::prelude::*;
use crate::clock::Timestamp;
use crate::error::{NodeError, NodeResult};
use crate::queue::{
    build_file_name, extract_proposal_id, invalid_name_message, proposal_id_of, status_file_name,
    standing_status, status_of_file, sweep_key, ProposalStatus,
};
use crate::state::{
    add_executed_proposal, add_vertex, is_executed, new_identifier, no_home_message, NodeState,
    VertexEntry,
};
use crate::text::{chars_of, contains, has_substring, join_path, joined, lex_le, text_le};
use crate::clock::{format_compact, now};

verus! {

/// What the engine hands back when it has run a proposal.
#[derive(Debug)]
pub struct EngineReport {
    /// Zero for success.
    pub status_code: i32,
    pub vertex_id: Option<String>,
    pub output: String,
}

/// The outcome of one execution, as it is returned and stored.
#[derive(Debug)]
pub struct ExecutionResult {
    pub proposal_id: String,
    pub timestamp: Timestamp,
    pub status_code: i32,
    pub vertex_id: Option<String>,
    pub output: String,
}

/// The text of an optional string.
pub open spec fn optional_text(s: Option<String>) -> Option<Seq<char>> {
    match s {
        Some(t) => Some(t@),
        None => None,
    }
}

/// The hexadecimal MD5 fingerprint of `content`: thirty-two lower-case digits, as
/// the crate `md5` computes and writes them.
pub uninterp spec fn md5_hex(content: Seq<u8>) -> Seq<char>;

/// Calls `md5::compute` on the bytes and writes the digest with its `LowerHex`
/// form. Trusted: the text depends on the bytes alone.
#[verifier::external_body]
fn generate_content_hash(content: &[u8]) -> (hash: String)
    ensures
        hash@ == md5_hex(content@),
{
    format!("{:x}", md5::compute(content))
}

/// The fingerprint of the bytes of a proposal file, by which the content that was
/// executed is known again: thirty-two hexadecimal digits that depend on the
/// bytes alone.
pub fn fingerprint(content: &[u8]) -> (hash: String)
    ensures
        hash@ == md5_hex(content@),
{
    generate_content_hash(content)
}

/// The identifier under which a file is executed: the one its name carries, or
/// the whole name where it carries none.
pub fn resolve_proposal_id(filename: &str) -> (id: String)
    ensures
        id@ == sweep_key(filename@),
{
    match extract_proposal_id(filename) {
        Ok(id) => id,
        Err(_) => filename.to_owned(),
    }
}

/// What happens to a proposal while it is coordinated.
#[derive(Debug)]
pub enum Event {
    /// Validation found the proposal wanting.
    ValidationFailed { reason: String },
    /// Validation passed, or was bypassed on demand.
    Cleared,
    /// The engine ran and reported. `now` is the time of the report, `fresh_id`
    /// an unused identifier for the vertex in case the engine names none, and
    /// `fingerprint` the fingerprint of the bytes of the proposal file.
    EngineReturned { report: EngineReport, now: Timestamp, fresh_id: String, fingerprint: String },
    /// The engine could not be invoked.
    EngineUnavailable { message: String },
}

/// The event for an engine that has run and reported on the proposal whose file
/// holds `content`: the report is stamped with the present moment, read from the
/// clock, and comes with an identifier drawn at random for the vertex and with
/// the MD5 fingerprint of the content.
pub fn engine_returned(report: EngineReport, content: &[u8]) -> (e: Event)
    ensures
        e matches Event::EngineReturned { report: r, fingerprint, .. } && r == report
            && fingerprint@ == md5_hex(content@),
{
    Event::EngineReturned {
        report,
        now: now(),
        fresh_id: new_identifier(),
        fingerprint: fingerprint(content),
    }
}

/// What the caller is to do after a step.
#[derive(Debug)]
pub enum Action {
    /// The event does not apply: nothing changes and nothing is to be done.
    Nothing,
    /// Rename the file where a name is given, log the rejection with `reason`, and
    /// report `error`, the validation error with that reason. The engine is not
    /// invoked.
    Reject { reason: String, error: NodeError, rename_to: Option<String> },
    /// Rename the file where a name is given, then invoke the engine.
    RunEngine { rename_to: Option<String> },
    /// The proposal succeeded and the node state holds it: copy the file to the
    /// archive and rename it where the names are given, persist the state, log
    /// the vertex and store the result.
    Complete {
        result: ExecutionResult,
        vertex: VertexEntry,
        archive_as: Option<String>,
        rename_to: Option<String>,
    },
    /// The engine reported a failure: rename the file where a name is given, and
    /// return the result.
    Fail { result: ExecutionResult, rename_to: Option<String> },
    /// The engine could not be invoked: rename the file where a name is given, and
    /// report `error`.
    Abort { error: NodeError, rename_to: Option<String> },
}

/// One proposal on its way through validation and execution.
#[derive(Debug)]
pub struct Coordinator {
    pub proposal_id: String,
    /// The current name of the proposal's file.
    pub file_name: String,
    /// Whether the file lies in the queue directory, where its name records its
    /// status.
    pub in_queue: bool,
    pub status: ProposalStatus,
}

/// The status that follows `status` on `event`: the status itself where the event
/// does not apply to it.
pub open spec fn next_status(status: ProposalStatus, event: &Event) -> ProposalStatus {
    match (status, event) {
        (ProposalStatus::Pending, Event::ValidationFailed { .. }) => ProposalStatus::Rejected,
        (ProposalStatus::Pending, Event::Cleared) => ProposalStatus::Executing,
        (ProposalStatus::Executing, Event::EngineReturned { report, .. }) => if report.status_code
            == 0 {
            ProposalStatus::Completed
        } else {
            ProposalStatus::Failed
        },
        (ProposalStatus::Executing, Event::EngineUnavailable { .. }) => ProposalStatus::Failed,
        _ => status,
    }
}

/// The message of the error for an engine that could not be invoked.
pub open spec fn engine_failure_message(message: Seq<char>) -> Seq<char> {
    "CoVM execution failed: "@ + message
}

/// Two documents hold the same.
pub open spec fn same_document(a: &NodeState, b: &NodeState) -> bool {
    &&& a.ledger() == b.ledger()
    &&& a.executed() == b.executed()
    &&& a.last_updated == b.last_updated
    &&& a.same_identity(b)
}

impl Coordinator {
    /// The event changes the proposal's status: it applies to the current status,
    /// and the proposal is not among those already executed.
    pub open spec fn due(&self, state: &NodeState, event: &Event) -> bool {
        next_status(self.status, event) != self.status && !state.executed().contains(
            self.proposal_id@,
        )
    }

    /// The file lies in the queue and its name carries no identifier, so that no
    /// new status can be written into it.
    pub open spec fn blocked(&self) -> bool {
        self.in_queue && proposal_id_of(self.file_name@) is None
    }

    /// The name to give the file for `status`: one for a file in the queue, none
    /// for a file elsewhere.
    pub open spec fn target(&self, status: ProposalStatus) -> Option<Seq<char>> {
        if self.in_queue {
            Some(status_file_name(self.proposal_id@, status))
        } else {
            None
        }
    }

    /// The same proposal, file and status.
    pub open spec fn same_as(&self, other: &Coordinator) -> bool {
        &&& self.proposal_id@ == other.proposal_id@
        &&& self.file_name@ == other.file_name@
        &&& self.in_queue == other.in_queue
        &&& self.status == other.status
    }

    /// Takes up the file `file_name`. Its identifier and its status are read from
    /// its name; a name that records no status stands for a pending proposal.
    pub fn open(file_name: &str, in_queue: bool) -> (c: Coordinator)
        ensures
            c.proposal_id@ == sweep_key(file_name@),
            c.file_name@ == file_name@,
            c.in_queue == in_queue,
            c.status == standing_status(file_name@),
    {
        let status = match status_of_file(file_name) {
            Some(s) => s,
            None => ProposalStatus::Pending,
        };
        Coordinator {
            proposal_id: resolve_proposal_id(file_name),
            file_name: file_name.to_owned(),
            in_queue,
            status,
        }
    }

    /// Whether the engine is to try this proposal in a dry run: the proposal is
    /// pending and was not executed, validation was not bypassed, and the text
    /// is well formed. For every other proposal a step would change nothing, and
    /// the engine is not to run for it.
    pub fn wants_dry_run(&self, state: &NodeState, force: bool, content: &str) -> (b: bool)
        ensures
            b == (self.status == ProposalStatus::Pending && !state.executed().contains(
                self.proposal_id@,
            ) && !force && structure_fault(content@) is None),
    {
        self.status == ProposalStatus::Pending && !is_executed(state, self.proposal_id.as_str())
            && needs_dry_run(force, content)
    }

    fn rename_target(&self, status: ProposalStatus) -> (r: Option<String>)
        ensures
            optional_text(r) == self.target(status),
    {
        if self.in_queue {
            Some(build_file_name(self.proposal_id.as_str(), status))
        } else {
            None
        }
    }
}

/// Takes one event in the execution of a proposal and says what is to be done.
///
/// An event that does not apply to the current status, or that concerns a
/// proposal already executed, changes nothing. Otherwise the status moves on as
/// `next_status` says, the file takes its new name, and on a successful engine
/// report the proposal is recorded as executed and its vertex is appended to
/// the ledger. A file in the queue whose name carries no identifier cannot
/// record a status: the step fails and changes nothing.
pub fn execute_proposal_file(c: &mut Coordinator, state: &mut NodeState, event: Event) -> (r:
    NodeResult<Action>)
    ensures
        old(state).wf() ==> final(state).wf(),
        final(c).proposal_id@ == old(c).proposal_id@,
        final(c).in_queue == old(c).in_queue,
        final(c).status == old(c).status || old(c).status.may_become(final(c).status),
        old(state).ledger().len() <= final(state).ledger().len(),
        final(state).ledger().take(old(state).ledger().len() as int) == old(state).ledger(),
        !old(c).due(old(state), &event) ==> {
            &&& r matches Ok(Action::Nothing)
            &&& final(c).same_as(old(c))
            &&& same_document(final(state), old(state))
        },
        old(c).due(old(state), &event) && old(c).blocked() ==> {
            &&& r matches Err(NodeError::Queue(m))
                && m@ == invalid_name_message(old(c).file_name@)
            &&& final(c).same_as(old(c))
            &&& same_document(final(state), old(state))
        },
        old(c).due(old(state), &event) && !old(c).blocked() ==> {
            &&& r is Ok
            &&& final(c).status == next_status(old(c).status, &event)
            &&& final(c).file_name@ == match old(c).target(final(c).status) {
                Some(n) => n,
                None => old(c).file_name@,
            }
            &&& step_outcome(old(c), old(state), &event, final(state), r->Ok_0)
        },
{
    let executed = is_executed(state, c.proposal_id.as_str());
    if executed {
        return Ok(Action::Nothing);
    }
    let next = match (c.status, &event) {
        (ProposalStatus::Pending, Event::ValidationFailed { .. }) => ProposalStatus::Rejected,
        (ProposalStatus::Pending, Event::Cleared) => ProposalStatus::Executing,
        (ProposalStatus::Executing, Event::EngineReturned { report, .. }) => if report.status_code
            == 0 {
            ProposalStatus::Completed
        } else {
            ProposalStatus::Failed
        },
        (ProposalStatus::Executing, Event::EngineUnavailable { .. }) => ProposalStatus::Failed,
        _ => c.status,
    };
    if next == c.status {
        return Ok(Action::Nothing);
    }
    if c.in_queue {
        match extract_proposal_id(c.file_name.as_str()) {
            Ok(_) => {},
            Err(e) => {
                return Err(e);
            },
        }
    }
    let rename_to = c.rename_target(next);
    match &rename_to {
        Some(n) => {
            c.file_name = n.clone();
        },
        None => {},
    }
    c.status = next;
    let action = match event {
        Event::ValidationFailed { reason } => Action::Reject {
            error: NodeError::Validation(reason.clone()),
            reason,
            rename_to,
        },
        Event::Cleared => Action::RunEngine { rename_to },
        Event::EngineUnavailable { message } => {
            let mut m = String::from_str("CoVM execution failed: ");
            m.append(message.as_str());
            Action::Abort { error: NodeError::Execution(m), rename_to }
        },
        Event::EngineReturned { report, now, fresh_id, fingerprint } => {
            let status_code = report.status_code;
            if status_code == 0 {
                let vertex_id = match &report.vertex_id {
                    Some(v) => v.clone(),
                    None => fresh_id,
                };
                let entry = VertexEntry {
                    id: vertex_id,
                    proposal_id: c.proposal_id.clone(),
                    timestamp: now,
                    hash: fingerprint,
                };
                let vertex = entry.clone();
                add_executed_proposal(state, c.proposal_id.as_str(), now);
                add_vertex(state, entry, now);
                let archive_as = c.rename_target(ProposalStatus::Completed);
                Action::Complete {
                    result: ExecutionResult {
                        proposal_id: c.proposal_id.clone(),
                        timestamp: now,
                        status_code,
                        vertex_id: report.vertex_id,
                        output: report.output,
                    },
                    vertex,
                    archive_as,
                    rename_to,
                }
            } else {
                Action::Fail {
                    result: ExecutionResult {
                        proposal_id: c.proposal_id.clone(),
                        timestamp: now,
                        status_code,
                        vertex_id: report.vertex_id,
                        output: report.output,
                    },
                    rename_to,
                }
            }
        },
    };
    Ok(action)
}

/// The result of an execution says what the engine reported for the proposal.
pub open spec fn reports(
    result: &ExecutionResult,
    proposal_id: Seq<char>,
    report: &EngineReport,
    now: Timestamp,
) -> bool {
    &&& result.proposal_id@ == proposal_id
    &&& result.timestamp == now
    &&& result.status_code == report.status_code
    &&& optional_text(result.vertex_id) == optional_text(report.vertex_id)
    &&& result.output@ == report.output@
}

/// What a step that changes the status leaves behind: the action that belongs to
/// the event, and the node state that belongs to the action. `before` is the
/// coordinator and `state` the document as the step found them.
pub open spec fn step_outcome(
    before: &Coordinator,
    state: &NodeState,
    event: &Event,
    after: &NodeState,
    action: Action,
) -> bool {
    let next = next_status(before.status, event);
    match event {
        Event::ValidationFailed { reason } => {
            &&& action matches Action::Reject { reason: r, error: NodeError::Validation(m), rename_to }
            &&& r@ == reason@
            &&& m@ == reason@
            &&& optional_text(rename_to) == before.target(next)
            &&& same_document(after, state)
        },
        Event::Cleared => {
            &&& action matches Action::RunEngine { rename_to }
            &&& optional_text(rename_to) == before.target(next)
            &&& same_document(after, state)
        },
        Event::EngineUnavailable { message } => {
            &&& action matches Action::Abort { error: NodeError::Execution(m), rename_to }
            &&& m@ == engine_failure_message(message@)
            &&& optional_text(rename_to) == before.target(next)
            &&& same_document(after, state)
        },
        Event::EngineReturned { report, now, fresh_id, fingerprint } => if report.status_code == 0 {
            &&& action matches Action::Complete { result, vertex, archive_as, rename_to }
            &&& reports(&result, before.proposal_id@, report, *now)
            &&& vertex@.id == match report.vertex_id {
                Some(v) => v@,
                None => fresh_id@,
            }
            &&& vertex@.proposal_id == before.proposal_id@
            &&& vertex@.timestamp == *now
            &&& vertex@.hash == fingerprint@
            &&& optional_text(archive_as) == before.target(ProposalStatus::Completed)
            &&& optional_text(rename_to) == before.target(ProposalStatus::Completed)
            &&& after.ledger() == state.ledger().push(vertex@)
            &&& after.executed() == state.executed().push(before.proposal_id@)
            &&& after.last_updated == *now
            &&& after.same_identity(state)
        } else {
            &&& action matches Action::Fail { result, rename_to }
            &&& reports(&result, before.proposal_id@, report, *now)
            &&& optional_text(rename_to) == before.target(ProposalStatus::Failed)
            &&& same_document(after, state)
        },
    }
}

/// Why the text of a proposal is not well formed, or `None` where it is. A
/// proposal holds an opening and a closing brace, and one that speaks of a
/// `proposal` names a `title:` and a `description:`.
pub open spec fn structure_fault(content: Seq<char>) -> Option<Seq<char>> {
    if !has_substring(content, "{"@) || !has_substring(content, "}"@) {
        Some("Proposal missing valid JSON structure"@)
    } else if has_substring(content, "proposal"@) && !has_substring(content, "title:"@) {
        Some("Governance proposal missing required 'title' field"@)
    } else if has_substring(content, "proposal"@) && !has_substring(content, "description:"@) {
        Some("Governance proposal missing required 'description' field"@)
    } else {
        None
    }
}

/// The reason given for a proposal that the engine's dry run refused.
pub open spec fn dry_run_fault() -> Seq<char> {
    "Proposal validation failed"@
}

/// Checks the form of a proposal's text and gives the reason where it is wanting.
pub fn check_structure(content: &str) -> (fault: Option<String>)
    ensures
        optional_text(fault) == structure_fault(content@),
{
    let text = chars_of(content);
    if !contains(&text, &chars_of("{")) || !contains(&text, &chars_of("}")) {
        return Some(String::from_str("Proposal missing valid JSON structure"));
    }
    if contains(&text, &chars_of("proposal")) {
        if !contains(&text, &chars_of("title:")) {
            return Some(String::from_str("Governance proposal missing required 'title' field"));
        }
        if !contains(&text, &chars_of("description:")) {
            return Some(
                String::from_str("Governance proposal missing required 'description' field"),
            );
        }
    }
    None
}

/// Whether the engine is to try the proposal in a dry run before it is executed:
/// validation was not bypassed, and the text is well formed.
pub fn needs_dry_run(force: bool, content: &str) -> (b: bool)
    ensures
        b == (!force && structure_fault(content@) is None),
{
    !force && check_structure(content).is_none()
}

/// The reason for which validation rejects a proposal, or `None` where it lets
/// the proposal pass. With `force` validation is bypassed. Otherwise a fault in
/// the text rejects the proposal, and so does a dry run that failed.
pub open spec fn verdict(force: bool, content: Seq<char>, dry_run_ok: bool) -> Option<Seq<char>> {
    if force {
        None
    } else if structure_fault(content) is Some {
        structure_fault(content)
    } else if !dry_run_ok {
        Some(dry_run_fault())
    } else {
        None
    }
}

/// The reason that an event of failed validation carries.
pub open spec fn rejection_reason(e: &Event) -> Option<Seq<char>> {
    match e {
        Event::ValidationFailed { reason } => Some(reason@),
        _ => None,
    }
}

/// The verdict of validation as an event for the coordinator. `dry_run_ok` counts
/// only where `needs_dry_run` asked for a dry run.
pub fn validate_proposal(force: bool, content: &str, dry_run_ok: bool) -> (e: Event)
    ensures
        verdict(force, content@, dry_run_ok) is None ==> e is Cleared,
        verdict(force, content@, dry_run_ok) is Some ==> e is ValidationFailed,
        rejection_reason(&e) == verdict(force, content@, dry_run_ok),
{
    if force {
        return Event::Cleared;
    }
    match check_structure(content) {
        Some(reason) => Event::ValidationFailed { reason },
        None => if dry_run_ok {
            Event::Cleared
        } else {
            Event::ValidationFailed { reason: String::from_str("Proposal validation failed") }
        },
    }
}

/// The name of the file that stores the result of executing `proposal_id` at the
/// moment whose compact form is `stamp`.
pub open spec fn output_file_name(proposal_id: Seq<char>, stamp: Seq<char>) -> Seq<char> {
    "execution_"@ + proposal_id + "_"@ + stamp + ".json"@
}

/// The name of the file in which an execution result is stored, or `None` where
/// the result's time has no written form.
pub fn store_execution_output(proposal_id: &str, result: &ExecutionResult) -> (name: Option<String>)
    ensures
        match result.timestamp.compact() {
            Some(stamp) => name matches Some(n) && n@ == output_file_name(proposal_id@, stamp),
            None => name is None,
        },
{
    match format_compact(result.timestamp, "%Y%m%d_%H%M%S") {
        Some(stamp) => Some(output_file_for(proposal_id, stamp.as_str())),
        None => None,
    }
}

/// The name of the file that stores the result of executing `proposal_id` at the
/// moment whose compact form is `stamp`.
pub fn output_file_for(proposal_id: &str, stamp: &str) -> (name: String)
    ensures
        name@ == output_file_name(proposal_id@, stamp@),
{
    let mut n = String::from_str("execution_");
    n.append(proposal_id);
    n.append("_");
    n.append(stamp);
    n.append(".json");
    n
}

/// The part of a file name by which the files of the proposal `proposal_id` are
/// found.
pub open spec fn proposal_marker(proposal_id: Seq<char>) -> Seq<char> {
    "proposal_"@ + proposal_id + "_"@
}

/// The part of a file name by which the stored results of `proposal_id` are found.
pub open spec fn output_marker(proposal_id: Seq<char>) -> Seq<char> {
    "execution_"@ + proposal_id + "_"@
}

/// Finds the file of the proposal `proposal_id` in a directory listing: the
/// position of the first name that holds `proposal_<id>_`.
pub fn find_proposal_file(listing: &Vec<String>, proposal_id: &str) -> (r: Option<usize>)
    ensures
        match r {
            Some(i) => i < listing.len() && has_substring(
                listing@[i as int]@,
                proposal_marker(proposal_id@),
            ) && forall|k: int|
                0 <= k < i ==> !has_substring(listing@[k]@, proposal_marker(proposal_id@)),
            None => forall|k: int|
                0 <= k < listing.len() ==> !has_substring(
                    listing@[k]@,
                    proposal_marker(proposal_id@),
                ),
        },
{
    let mut m = String::from_str("proposal_");
    m.append(proposal_id);
    m.append("_");
    let marker = chars_of(m.as_str());
    let mut i: usize = 0;
    while i < listing.len()
        invariant
            i <= listing.len(),
            marker@ == proposal_marker(proposal_id@),
            forall|k: int| 0 <= k < i ==> !has_substring(listing@[k]@, marker@),
        decreases listing.len() - i,
    {
        if contains(&chars_of(listing[i].as_str()), &marker) {
            return Some(i);
        }
        i = i + 1;
    }
    None
}

/// Finds the newest stored result of `proposal_id` in a directory listing: among
/// the names that hold `execution_<id>_`, one that comes last in dictionary
/// order, which is the order of their times.
pub fn latest_output(listing: &Vec<String>, proposal_id: &str) -> (r: Option<usize>)
    ensures
        match r {
            Some(i) => i < listing.len() && has_substring(
                listing@[i as int]@,
                output_marker(proposal_id@),
            ) && forall|k: int|
                0 <= k < listing.len() && has_substring(listing@[k]@, output_marker(proposal_id@))
                    ==> lex_le(listing@[k]@, listing@[i as int]@),
            None => forall|k: int|
                0 <= k < listing.len() ==> !has_substring(
                    listing@[k]@,
                    output_marker(proposal_id@),
                ),
        },
{
    let mut m = String::from_str("execution_");
    m.append(proposal_id);
    m.append("_");
    let marker = chars_of(m.as_str());
    let mut best: Option<usize> = None;
    let mut best_name: Vec<char> = Vec::new();
    let mut i: usize = 0;
    while i < listing.len()
        invariant
            i <= listing.len(),
            marker@ == output_marker(proposal_id@),
            match best {
                Some(b) => b < i && best_name@ == listing@[b as int]@ && has_substring(
                    listing@[b as int]@,
                    marker@,
                ) && forall|k: int|
                    0 <= k < i && has_substring(listing@[k]@, marker@) ==> lex_le(
                        listing@[k]@,
                        listing@[b as int]@,
                    ),
                None => forall|k: int| 0 <= k < i ==> !has_substring(listing@[k]@, marker@),
            },
        decreases listing.len() - i,
    {
        let name = chars_of(listing[i].as_str());
        if contains(&name, &marker) {
            let better = match best {
                Some(_) => !text_le(&name, &best_name),
                None => true,
            };
            proof {
                crate::text::lemma_lex_reflexive(name@);
                if best is Some {
                    let b = best->Some_0 as int;
                    if better {
                        crate::text::lemma_lex_total(name@, listing@[b]@);
                        assert forall|k: int|
                            0 <= k < i && has_substring(listing@[k]@, marker@) implies lex_le(
                            listing@[k]@,
                            name@,
                        ) by {
                            crate::text::lemma_lex_transitive(listing@[k]@, listing@[b]@, name@);
                        }
                    }
                }
            }
            if better {
                best = Some(i);
                best_name = name;
            }
        }
        i = i + 1;
    }
    best
}

/// What the engine is told for one run. A switch that is off, and a text that is
/// absent, leave the engine's own default in place.
#[derive(Debug)]
pub struct EngineOptions {
    /// Try the proposal without changing anything.
    pub simulate: bool,
    pub use_stdlib: bool,
    pub storage_backend: Option<String>,
    pub storage_path: Option<String>,
    pub identity_path: Option<String>,
    pub trace: bool,
    pub explain: bool,
    pub verbose: bool,
}

impl EngineOptions {
    /// No switch is on and no text is given.
    pub open spec fn plain(&self) -> bool {
        &&& !self.simulate
        &&& !self.use_stdlib
        &&& self.storage_backend is None
        &&& self.storage_path is None
        &&& self.identity_path is None
        &&& !self.trace
        &&& !self.explain
        &&& !self.verbose
    }
}

/// The options for the dry run of validation: the engine changes nothing.
pub fn dry_run_options() -> (o: EngineOptions)
    ensures
        o.simulate,
        (EngineOptions { simulate: false, ..o }).plain(),
{
    EngineOptions {
        simulate: true,
        use_stdlib: false,
        storage_backend: None,
        storage_path: None,
        identity_path: None,
        trace: false,
        explain: false,
        verbose: false,
    }
}

/// The options for the execution of a proposal: the standard library, and
/// storage in files under `.icn/storage` in the home directory; the identity in
/// `.icn/identity.json` where `has_identity` says that the file exists. Fails
/// with an `Execution` error where there is no home directory.
pub fn run_covm(home: Option<&str>, has_identity: bool) -> (r: NodeResult<EngineOptions>)
    ensures
        match home {
            Some(h) => {
                &&& r matches Ok(o)
                &&& o.use_stdlib
                &&& optional_text(o.storage_backend) == Some("file"@)
                &&& optional_text(o.storage_path) == Some(joined(joined(h@, ".icn"@), "storage"@))
                &&& optional_text(o.identity_path) == if has_identity {
                    Some(joined(joined(h@, ".icn"@), "identity.json"@))
                } else {
                    None
                }
                &&& !o.simulate && !o.trace && !o.explain && !o.verbose
            },
            None => r matches Err(NodeError::Execution(m)) && m@ == no_home_message(),
        },
{
    match home {
        Some(h) => {
            let data_dir = join_path(h, ".icn");
            let identity_path = if has_identity {
                Some(join_path(data_dir.as_str(), "identity.json"))
            } else {
                None
            };
            Ok(
                EngineOptions {
                    simulate: false,
                    use_stdlib: true,
                    storage_backend: Some(String::from_str("file")),
                    storage_path: Some(join_path(data_dir.as_str(), "storage")),
                    identity_path,
                    trace: false,
                    explain: false,
                    verbose: false,
                },
            )
        },
        None => Err(NodeError::Execution(String::from_str("Could not determine home directory"))),
    }
}

/// Where the file of a proposal was found.
#[derive(Debug, Clone, Copy, PartialEq, Eq, Structural)]
pub enum Found {
    /// In the archive of executed proposals, at this position of its listing.
    Executed(usize),
    /// In the queue, at this position of its listing.
    Queued(usize),
}

/// The message of the error for a proposal of which no file is found.
pub open spec fn missing_proposal_message(proposal_id: Seq<char>) -> Seq<char> {
    "Proposal not found: "@ + proposal_id
}

/// No name of `listing` holds `marker`.
pub open spec fn none_holds(listing: Seq<String>, marker: Seq<char>) -> bool {
    forall|k: int| 0 <= k < listing.len() ==> !has_substring(listing[k]@, marker)
}

/// The first name of `listing` that holds `marker` is at position `i`.
pub open spec fn first_holds(listing: Seq<String>, marker: Seq<char>, i: int) -> bool {
    &&& 0 <= i < listing.len()
    &&& has_substring(listing[i]@, marker)
    &&& forall|k: int| 0 <= k < i ==> !has_substring(listing[k]@, marker)
}

/// Finds the file of the proposal to trace, and the options for the engine's
/// run: the archive of executed proposals is searched first, then the queue, each
/// for the first name that holds `proposal_<id>_`. The engine is to trace,
/// explain and be verbose. Fails with an `Execution` error where neither
/// listing holds such a name.
pub fn trace_proposal(executed: &Vec<String>, queue: &Vec<String>, proposal_id: &str) -> (r:
    NodeResult<(Found, EngineOptions)>)
    ensures
        match r {
            Ok((Found::Executed(i), o)) => first_holds(
                executed@,
                proposal_marker(proposal_id@),
                i as int,
            ) && o.trace && o.explain && o.verbose && (EngineOptions {
                trace: false,
                explain: false,
                verbose: false,
                ..o
            }).plain(),
            Ok((Found::Queued(i), o)) => none_holds(executed@, proposal_marker(proposal_id@))
                && first_holds(queue@, proposal_marker(proposal_id@), i as int) && o.trace
                && o.explain && o.verbose && (EngineOptions {
                trace: false,
                explain: false,
                verbose: false,
                ..o
            }).plain(),
            Err(NodeError::Execution(m)) => none_holds(executed@, proposal_marker(proposal_id@))
                && none_holds(queue@, proposal_marker(proposal_id@)) && m@
                == missing_proposal_message(proposal_id@),
            Err(_) => false,
        },
{
    let found = match find_proposal_file(executed, proposal_id) {
        Some(i) => Some(Found::Executed(i)),
        None => match find_proposal_file(queue, proposal_id) {
            Some(i) => Some(Found::Queued(i)),
            None => None,
        },
    };
    match found {
        Some(f) => Ok(
            (
                f,
                EngineOptions {
                    simulate: false,
                    use_stdlib: false,
                    storage_backend: None,
                    storage_path: None,
                    identity_path: None,
                    trace: true,
                    explain: true,
                    verbose: true,
                },
            ),
        ),
        None => {
            let mut m = String::from_str("Proposal not found: ");
            m.append(proposal_id);
            Err(NodeError::Execution(m))
        },
    }
}

/// A proposal that was executed is not executed again: no event is due for it,
/// so that a step neither asks for the engine nor appends a vertex.
pub proof fn lemma_executed_is_never_due(c: &Coordinator, state: &NodeState, event: &Event)
    requires
        state.executed().contains(c.proposal_id@),
    ensures
        !c.due(state, event),
{
}

/// The statuses that a proposal passes through from `start` under `events`, one
/// after each event, `start` first.
pub open spec fn statuses(start: ProposalStatus, events: Seq<Event>) -> Seq<ProposalStatus>
    decreases events.len(),
{
    if events.len() == 0 {
        seq![start]
    } else {
        seq![start] + statuses(next_status(start, &events[0]), events.drop_first())
    }
}

/// Each status of the sequence is followed by itself or by a status that it may
/// become.
pub open spec fn is_path(trace: Seq<ProposalStatus>) -> bool {
    forall|i: int|
        0 <= i < trace.len() - 1 ==> trace[i] == trace[i + 1] || (#[trigger] trace[i]).may_become(
            trace[i + 1],
        )
}

/// One event moves a status along the path of a proposal's life or leaves it.
pub proof fn lemma_next_status_is_allowed(status: ProposalStatus, event: &Event)
    ensures
        next_status(status, event) == status || status.may_become(next_status(status, event)),
        status.is_terminal() ==> next_status(status, event) == status,
{
}

/// Whatever happens, the statuses of a proposal form a path from pending to
/// rejected, or to executing and on to completed or failed; and a terminal
/// status, once reached, is never left.
pub proof fn lemma_statuses_form_a_path(start: ProposalStatus, events: Seq<Event>)
    ensures
        statuses(start, events).len() == events.len() + 1,
        statuses(start, events)[0] == start,
        is_path(statuses(start, events)),
        forall|i: int, j: int|
            0 <= i <= j < statuses(start, events).len() && (#[trigger] statuses(
                start,
                events,
            )[i]).is_terminal() ==> #[trigger] statuses(start, events)[j] == statuses(
                start,
                events,
            )[i],
    decreases events.len(),
{
    if events.len() > 0 {
        let next = next_status(start, &events[0]);
        let rest = statuses(next, events.drop_first());
        let all = statuses(start, events);
        lemma_statuses_form_a_path(next, events.drop_first());
        lemma_next_status_is_allowed(start, &events[0]);
        assert(all =~= seq![start] + rest);
        assert forall|i: int| 0 <= i < all.len() - 1 implies all[i] == all[i + 1] || (
        #[trigger] all[i]).may_become(all[i + 1]) by {
            if i > 0 {
                assert(all[i] == rest[i - 1]);
                assert(all[i + 1] == rest[i]);
            } else {
                assert(all[1] == rest[0]);
            }
        }
        assert forall|i: int, j: int|
            0 <= i <= j < all.len() && (#[trigger] all[i]).is_terminal() implies #[trigger] all[j]
            == all[i] by {
            if i > 0 {
                assert(all[i] == rest[i - 1]);
                assert(all[j] == rest[j - 1]);
            } else if j > 0 {
                assert(all[j] == rest[j - 1]);
                assert(rest[0] == next);
                assert(next == start);
                assert(rest[0].is_terminal());
            }
        }
    }
}

/// Equal contents have equal fingerprints: the fingerprint depends on the bytes
/// alone.
pub proof fn lemma_fingerprint_is_determined(a: Seq<u8>, b: Seq<u8>)
    requires
        a == b,
    ensures
        md5_hex(a) == md5_hex(b),
{
}

/// The directory that holds the stored results of executions, under the state
/// directory `state_dir`.
pub fn get_output_dir(state_dir: &str) -> (dir: String)
    ensures
        dir@ == joined(state_dir@, "output"@),
{
    join_path(state_dir, "output")
}

/// A proposal that speaks of a `proposal`, holds both braces and names no
/// `title:` is rejected for the missing title, whatever a dry run would say: the
/// verdict carries that reason, and a pending proposal becomes rejected on it.
pub proof fn lemma_missing_title_is_rejected(content: Seq<char>, dry_run_ok: bool, event: &Event)
    requires
        has_substring(content, "{"@),
        has_substring(content, "}"@),
        has_substring(content, "proposal"@),
        !has_substring(content, "title:"@),
        rejection_reason(event) == verdict(false, content, dry_run_ok),
    ensures
        verdict(false, content, dry_run_ok) == Some(
            "Governance proposal missing required 'title' field"@,
        ),
        event is ValidationFailed,
        next_status(ProposalStatus::Pending, event) == ProposalStatus::Rejected,
{
}

/// What a step leaves behind when the engine has reported success for a
/// proposal that was not executed before: the proposal is among the executed,
/// once, beside all that were there; the ledger is longer by one entry, which
/// is that of the proposal, and its earlier entries are as they were; the file
/// is to be archived and renamed under the name of the completed proposal.
pub proof fn lemma_success_is_recorded(
    before: &Coordinator,
    state: &NodeState,
    event: &Event,
    after: &NodeState,
    action: Action,
)
    requires
        state.wf(),
        !state.executed().contains(before.proposal_id@),
        event matches Event::EngineReturned { report, .. } && report.status_code == 0,
        step_outcome(before, state, event, after, action),
    ensures
        after.wf(),
        after.executed().contains(before.proposal_id@),
        forall|other: Seq<char>|
            state.executed().contains(other) ==> after.executed().contains(other),
        after.ledger().len() == state.ledger().len() + 1,
        after.ledger().take(state.ledger().len() as int) == state.ledger(),
        after.ledger().last().proposal_id == before.proposal_id@,
        next_status(ProposalStatus::Executing, event) == ProposalStatus::Completed,
        action matches Action::Complete { archive_as, rename_to, .. } && optional_text(archive_as)
            == before.target(ProposalStatus::Completed) && optional_text(rename_to)
            == before.target(ProposalStatus::Completed),
{
    let old_ids = state.executed();
    let new_ids = after.executed();
    assert(new_ids == old_ids.push(before.proposal_id@));
    assert(new_ids[old_ids.len() as int] == before.proposal_id@);
    assert forall|other: Seq<char>| old_ids.contains(other) implies new_ids.contains(other) by {
        let k = choose|k: int| 0 <= k < old_ids.len() && old_ids[k] == other;
        assert(new_ids[k] == other);
    }
    assert forall|i: int, j: int| 0 <= i < j < new_ids.len() implies new_ids[i] != new_ids[j] by {
        if j == new_ids.len() - 1 {
            assert(old_ids.contains(old_ids[i]));
        }
    }
    assert(after.ledger().take(state.ledger().len() as int) =~= state.ledger());
}

} // verus!
