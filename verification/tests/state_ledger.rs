use icn_node::clock::Timestamp;
use icn_node::dag::{
    get_all_vertices, get_dag_info, get_dag_logs, get_vertex, summarize, to_wire, watch_dag,
};
use icn_node::federation::{BroadcastAction, Peer};
use icn_node::dispatch::Dispatcher;
use icn_node::error::NodeError;
use icn_node::state::{
    add_executed_proposal, add_vertex, backup_file_for, backup_file_name, backup_state,
    get_backup_dir,
    get_executed_proposals, get_state_dir, get_state_file, init, is_executed, load_state,
    log_vertex, save_state, vertex_entry_line, NodeState, Startup, VertexEntry,
};

fn at(secs: i64) -> Timestamp {
    Timestamp { secs, nanos: 0 }
}

fn fresh_state() -> NodeState {
    NodeState::new("node-a".to_string(), at(100), "0.1.0".to_string())
}

fn vertex(id: &str, proposal: &str, secs: i64) -> VertexEntry {
    VertexEntry {
        id: id.to_string(),
        proposal_id: proposal.to_string(),
        timestamp: at(secs),
        hash: "h".to_string(),
    }
}

fn same(a: &VertexEntry, b: &VertexEntry) -> bool {
    a.id == b.id && a.proposal_id == b.proposal_id && a.timestamp == b.timestamp && a.hash == b.hash
}

#[test]
fn new_state_is_empty() {
    let s = fresh_state();
    assert_eq!(s.node_id, "node-a");
    assert_eq!(s.initialized, at(100));
    assert_eq!(s.last_updated, at(100));
    assert_eq!(s.last_executed_block, 0);
    assert_eq!(s.last_proposal_id, 0);
    assert!(s.executed_proposals.is_empty());
    assert!(s.peers.is_empty());
    assert!(s.dag_vertices.is_empty());
    assert_eq!(s.active_connection, "");
    assert_eq!(s.system_version, "0.1.0");
}

#[test]
fn append_adds_one_and_keeps_the_rest() {
    let mut s = fresh_state();
    add_vertex(&mut s, vertex("a", "1", 1), at(101));
    add_vertex(&mut s, vertex("b", "2", 2), at(102));
    let before = get_all_vertices(&s);
    add_vertex(&mut s, vertex("c", "3", 3), at(103));
    assert_eq!(s.dag_vertices.len(), before.len() + 1);
    for i in 0..before.len() {
        assert!(same(&before[i], &s.dag_vertices[i]));
    }
    assert!(same(&s.dag_vertices[2], &vertex("c", "3", 3)));
    assert_eq!(s.last_updated, at(103));
    assert_eq!(s.node_id, "node-a");
}

#[test]
fn executed_proposal_is_recorded_once() {
    let mut s = fresh_state();
    assert!(!is_executed(&s, "42"));
    add_executed_proposal(&mut s, "42", at(101));
    add_executed_proposal(&mut s, "7", at(102));
    add_executed_proposal(&mut s, "42", at(103));
    assert_eq!(get_executed_proposals(&s), vec!["42".to_string(), "7".to_string()]);
    assert!(is_executed(&s, "42"));
    assert!(is_executed(&s, "7"));
    assert!(!is_executed(&s, "4"));
    assert_eq!(s.last_updated, at(103));
    assert!(s.dag_vertices.is_empty());
}

#[test]
fn vertex_log_line() {
    let v = VertexEntry {
        id: "v1".to_string(),
        proposal_id: "42".to_string(),
        timestamp: Timestamp { secs: 1431648000, nanos: 0 },
        hash: "abc".to_string(),
    };
    assert_eq!(
        log_vertex(&v),
        Some("2015-05-15 00:00:00 UTC - Vertex ID: v1, Proposal: 42, Hash: abc\n".to_string())
    );
    let never = VertexEntry { timestamp: Timestamp { secs: i64::MAX, nanos: 0 }, ..v };
    assert_eq!(log_vertex(&never), None);
}

#[test]
fn backup_is_named_by_its_time() {
    assert_eq!(backup_file_name(at(1431648000)), Some("state_20150515_000000.json".to_string()));
    assert_eq!(backup_file_name(at(0)), Some("state_19700101_000000.json".to_string()));
    assert_eq!(backup_file_name(at(86399)), Some("state_19700101_235959.json".to_string()));
    assert_eq!(backup_file_name(Timestamp { secs: 0, nanos: 3_000_000_000 }), None);
}

#[test]
fn backup_of_the_present_moment() {
    let (name, moment) = backup_state();
    assert_eq!(Some(name.clone()), backup_file_name(moment));
    assert!(name.starts_with("state_") && name.ends_with(".json"));
    assert_eq!(name.len(), "state_20150515_000000.json".len());
}

#[test]
fn default_state_is_empty_and_named_at_random() {
    let a = NodeState::default();
    let b = NodeState::default();
    assert_eq!(a.node_id.len(), 36);
    assert_ne!(a.node_id, b.node_id);
    assert_eq!(a.initialized, a.last_updated);
    assert!(a.initialized.secs > 1_500_000_000);
    assert_eq!(a.system_version, "0.1.0");
    assert!(a.executed_proposals.is_empty() && a.dag_vertices.is_empty() && a.peers.is_empty());
    assert_eq!((a.last_executed_block, a.last_proposal_id), (0, 0));
}

#[test]
fn state_paths() {
    assert_eq!(get_state_dir(Some("/home/u")).unwrap(), "/home/u/.icn");
    assert_eq!(get_state_file(Some("/home/u")).unwrap(), "/home/u/.icn/state.json");
    assert_eq!(get_backup_dir(Some("/home/u/")).unwrap(), "/home/u/.icn/state/backups");
    for r in [get_state_dir(None), get_state_file(None), get_backup_dir(None)] {
        match r {
            Err(NodeError::State(m)) => assert_eq!(m, "Could not determine home directory"),
            other => panic!("unexpected: {:?}", other),
        }
    }
}

#[test]
fn summary_of_an_empty_ledger() {
    let s = fresh_state();
    let info = summarize(&s, at(500));
    assert_eq!(info.vertex_count, 0);
    assert_eq!(info.root_count, 1);
    assert_eq!(info.tip_count, 0);
    assert!(info.tips.is_empty());
    assert_eq!(info.genesis_time, at(500));
    assert_eq!(info.latest_update, at(500));
}

#[test]
fn summary_of_a_ledger() {
    let mut s = fresh_state();
    add_vertex(&mut s, vertex("a", "1", 10), at(101));
    add_vertex(&mut s, vertex("b", "2", 20), at(102));
    add_vertex(&mut s, vertex("c", "3", 30), at(103));
    let info = summarize(&s, at(500));
    assert_eq!(info.vertex_count, 3);
    assert_eq!(info.root_count, 1);
    assert_eq!(info.tip_count, 1);
    assert_eq!(info.tips, vec!["c".to_string()]);
    assert_eq!(info.genesis_time, at(10));
    assert_eq!(info.latest_update, at(30));
}

#[test]
fn summary_reads_the_clock_only_for_an_empty_ledger() {
    let mut s = fresh_state();
    let empty = get_dag_info(&s);
    assert_eq!(empty.vertex_count, 0);
    assert_eq!(empty.genesis_time, empty.latest_update);
    assert!(empty.genesis_time.secs > 1_500_000_000);
    add_vertex(&mut s, vertex("a", "1", 10), at(101));
    add_vertex(&mut s, vertex("b", "2", 20), at(102));
    let info = get_dag_info(&s);
    assert_eq!((info.vertex_count, info.root_count, info.tip_count), (2, 1, 1));
    assert_eq!(info.tips, vec!["b".to_string()]);
    assert_eq!(info.genesis_time, at(10));
    assert_eq!(info.latest_update, at(20));
}

#[test]
fn vertex_is_found_by_identifier() {
    let mut s = fresh_state();
    add_vertex(&mut s, vertex("a", "1", 10), at(101));
    add_vertex(&mut s, vertex("b", "2", 20), at(102));
    add_vertex(&mut s, vertex("b", "3", 30), at(103));
    assert!(same(&get_vertex(&s, "b").unwrap(), &vertex("b", "2", 20)));
    match get_vertex(&s, "z") {
        Err(NodeError::Dag(m)) => assert_eq!(m, "Vertex not found: z"),
        other => panic!("unexpected: {:?}", other),
    }
}

#[test]
fn watcher_reports_what_is_new() {
    let mut s = fresh_state();
    assert_eq!(watch_dag(&s, 0), (Vec::<String>::new(), 0));
    add_vertex(&mut s, vertex("a", "1", 10), at(101));
    add_vertex(&mut s, vertex("b", "2", 20), at(102));
    assert_eq!(
        watch_dag(&s, 0),
        (vec!["New DAG vertex: a".to_string(), "New DAG vertex: b".to_string()], 2)
    );
    assert_eq!(watch_dag(&s, 1), (vec!["New DAG vertex: b".to_string()], 2));
    assert_eq!(watch_dag(&s, 2), (Vec::<String>::new(), 2));
    assert_eq!(watch_dag(&s, 5), (Vec::<String>::new(), 5));
}

#[test]
fn vertex_for_peers_has_no_parents() {
    let v = to_wire(&vertex("a", "1", 10), "node-a");
    assert_eq!(v.id, "a");
    assert_eq!(v.proposal_id, "1");
    assert_eq!(v.timestamp, at(10));
    assert_eq!(v.hash, "h");
    assert_eq!(v.submitter, "node-a");
    assert!(v.parents.is_empty());
}

#[test]
fn two_paths_get_one_leave() {
    let state = fresh_state();
    let mut d = Dispatcher::new();
    assert!(d.acquire(&state, "42"));
    assert!(!d.acquire(&state, "42"));
    assert!(d.acquire(&state, "7"));
    assert!(!d.acquire(&state, "42"));
    assert_eq!(d.in_flight, vec!["42".to_string(), "7".to_string()]);
    d.release("42");
    assert_eq!(d.in_flight, vec!["7".to_string()]);
    assert!(d.acquire(&state, "42"));
    d.release("unknown");
    assert_eq!(d.in_flight, vec!["7".to_string(), "42".to_string()]);
}

#[test]
fn executed_proposal_gets_no_leave() {
    let mut state = fresh_state();
    add_executed_proposal(&mut state, "42", at(101));
    let mut d = Dispatcher::new();
    assert!(!d.acquire(&state, "42"));
    assert!(d.in_flight.is_empty());
}

#[test]
fn vertex_is_in_the_ledger_before_its_broadcast_begins() {
    let mut s = fresh_state();
    let peers = vec![Peer {
        id: "p".to_string(),
        name: "peer".to_string(),
        address: "http://p:1".to_string(),
        last_seen: None,
    }];
    let (b, action) = icn_node::dag::add_vertex(&mut s, vertex("a", "1", 10), at(101), &peers);
    assert_eq!(s.dag_vertices.len(), 1);
    assert_eq!(s.dag_vertices[0].id, "a");
    assert_eq!(s.last_updated, at(101));
    assert_eq!((b.position, b.pushing, b.delivered), (0, false, 0));
    match action {
        BroadcastAction::Probe { peer, url } => {
            assert_eq!(peer, 0);
            assert_eq!(url, "http://p:1/status");
        }
        other => panic!("unexpected: {:?}", other),
    }
    let (_, none) = icn_node::dag::add_vertex(&mut s, vertex("b", "2", 20), at(102), &Vec::new());
    assert!(matches!(none, BroadcastAction::Finished));
    assert_eq!(s.dag_vertices.len(), 2);
}

#[test]
fn log_is_shown_or_said_to_be_missing() {
    assert_eq!(get_dag_logs(Some("line\n".to_string())), "line\n");
    assert_eq!(get_dag_logs(Some(String::new())), "");
    assert_eq!(get_dag_logs(None), "No DAG logs found");
}

#[test]
fn node_starts_from_the_file_where_there_is_one() {
    assert_eq!(init(true), Startup::Load);
    assert_eq!(init(false), Startup::Save);
}

#[test]
fn saving_stamps_and_names_the_backup() {
    let mut s = fresh_state();
    assert_eq!(save_state(&mut s, false, at(200)).unwrap(), None);
    assert_eq!(s.last_updated, at(200));
    assert_eq!(
        save_state(&mut s, true, at(1431648000)).unwrap(),
        Some("state_20150515_000000.json".to_string())
    );
    assert_eq!(s.last_updated, at(1431648000));
    match save_state(&mut s, true, Timestamp { secs: i64::MAX, nanos: 0 }) {
        Err(NodeError::State(m)) => {
            assert_eq!(m, "Failed to create backup: the time of the backup cannot be written")
        }
        other => panic!("unexpected: {:?}", other),
    }
    assert_eq!(s.last_updated, at(1431648000));
    assert_eq!(save_state(&mut s, false, Timestamp { secs: i64::MAX, nanos: 0 }).unwrap(), None);
}

#[test]
fn loaded_document_names_each_executed_proposal_once() {
    let mut raw = fresh_state();
    raw.executed_proposals =
        vec!["7".to_string(), "42".to_string(), "7".to_string(), "1".to_string(), "42".to_string()];
    raw.dag_vertices.push(vertex("a", "7", 10));
    raw.peers.push("p".to_string());
    raw.last_proposal_id = 9;
    let s = load_state(raw);
    assert_eq!(s.executed_proposals, vec!["7".to_string(), "42".to_string(), "1".to_string()]);
    assert_eq!(s.dag_vertices.len(), 1);
    assert_eq!(s.peers, vec!["p".to_string()]);
    assert_eq!(s.last_proposal_id, 9);
    assert_eq!(s.node_id, "node-a");
    assert_eq!(s.last_updated, at(100));
    assert!(load_state(fresh_state()).executed_proposals.is_empty());
}

#[test]
fn lines_and_names_for_a_given_stamp() {
    assert_eq!(backup_file_for("20240131_235959"), "state_20240131_235959.json");
    assert_eq!(
        vertex_entry_line("2024-01-31 23:59:59 UTC", &vertex("v", "p", 0)),
        "2024-01-31 23:59:59 UTC - Vertex ID: v, Proposal: p, Hash: h\n"
    );
}
