use icn_node::clock::Timestamp;
use icn_node::error::NodeError;
use icn_node::federation::{
    broadcast_vertex, check_federation_health, check_peer_status, default_config,
    get_federation_config, shell_failure, sort_peers, status_endpoint, sync_with_federation,
    vertices_endpoint, Broadcast,
    BroadcastAction, BroadcastEvent, ConfigSource, Peer, ToolRun,
};

fn peer(id: &str, address: &str) -> Peer {
    Peer {
        id: id.to_string(),
        name: format!("peer {}", id),
        address: address.to_string(),
        last_seen: None,
    }
}

fn at(secs: i64) -> Timestamp {
    Timestamp { secs, nanos: 0 }
}

#[test]
fn success_is_the_range_of_two_hundred() {
    assert!(check_peer_status(Some(200)));
    assert!(check_peer_status(Some(204)));
    assert!(check_peer_status(Some(299)));
    assert!(!check_peer_status(Some(199)));
    assert!(!check_peer_status(Some(300)));
    assert!(!check_peer_status(Some(404)));
    assert!(!check_peer_status(Some(500)));
    assert!(!check_peer_status(None));
}

#[test]
fn endpoints_of_a_peer() {
    assert_eq!(status_endpoint("http://a:1"), "http://a:1/status");
    assert_eq!(vertices_endpoint("http://a:1"), "http://a:1/dag/vertices");
}

#[test]
fn health_sorts_the_peers() {
    let peers = vec![peer("a", "http://a"), peer("b", "http://b"), peer("c", "http://c")];
    let status = sort_peers(&peers, &vec![Some(200), None, Some(503)], at(9));
    assert_eq!(status.last_check, at(9));
    assert_eq!(status.online_peers.len(), 1);
    assert_eq!(status.online_peers[0].id, "a");
    assert_eq!(status.online_peers[0].last_seen, Some(at(9)));
    assert_eq!(status.offline_peers.len(), 2);
    assert_eq!(status.offline_peers[0].id, "b");
    assert_eq!(status.offline_peers[1].id, "c");
    assert_eq!(status.offline_peers[0].last_seen, None);
}

#[test]
fn peer_without_an_answer_is_offline() {
    let peers = vec![peer("a", "http://a"), peer("b", "http://b")];
    let status = sort_peers(&peers, &vec![Some(200)], at(9));
    assert_eq!(status.online_peers.len(), 1);
    assert_eq!(status.offline_peers.len(), 1);
    assert_eq!(status.offline_peers[0].id, "b");
    let none = sort_peers(&Vec::new(), &vec![Some(200)], at(9));
    assert!(none.online_peers.is_empty() && none.offline_peers.is_empty());
}

#[test]
fn broadcast_succeeds_when_no_peer_answers() {
    let peers = vec![peer("a", "http://a"), peer("b", "http://b")];
    let mut b = Broadcast::new();
    assert!(b.outcome(&peers).is_none());
    match broadcast_vertex(&mut b, &peers, BroadcastEvent::Begin) {
        BroadcastAction::Probe { peer, url } => {
            assert_eq!(peer, 0);
            assert_eq!(url, "http://a/status");
        }
        other => panic!("unexpected: {:?}", other),
    }
    match broadcast_vertex(&mut b, &peers, BroadcastEvent::ProbeAnswered { status: None }) {
        BroadcastAction::Probe { peer, url } => {
            assert_eq!(peer, 1);
            assert_eq!(url, "http://b/status");
        }
        other => panic!("unexpected: {:?}", other),
    }
    let last = broadcast_vertex(&mut b, &peers, BroadcastEvent::ProbeAnswered { status: Some(500) });
    assert!(matches!(last, BroadcastAction::Finished));
    assert!(matches!(b.outcome(&peers), Some(Ok(0))));
}

#[test]
fn broadcast_pushes_only_to_peers_that_answer() {
    let peers = vec![peer("a", "http://a"), peer("b", "http://b"), peer("c", "http://c")];
    let mut b = Broadcast::new();
    broadcast_vertex(&mut b, &peers, BroadcastEvent::Begin);
    match broadcast_vertex(&mut b, &peers, BroadcastEvent::ProbeAnswered { status: Some(200) }) {
        BroadcastAction::Push { peer, url } => {
            assert_eq!(peer, 0);
            assert_eq!(url, "http://a/dag/vertices");
        }
        other => panic!("unexpected: {:?}", other),
    }
    // A push that is refused ends the peer's turn like any other.
    assert!(matches!(
        broadcast_vertex(&mut b, &peers, BroadcastEvent::PushAnswered { status: Some(500) }),
        BroadcastAction::Probe { peer: 1, .. }
    ));
    assert!(matches!(
        broadcast_vertex(&mut b, &peers, BroadcastEvent::ProbeAnswered { status: None }),
        BroadcastAction::Probe { peer: 2, .. }
    ));
    // An answer that is not awaited changes nothing.
    assert!(matches!(
        broadcast_vertex(&mut b, &peers, BroadcastEvent::PushAnswered { status: Some(200) }),
        BroadcastAction::Probe { peer: 2, .. }
    ));
    assert!(matches!(
        broadcast_vertex(&mut b, &peers, BroadcastEvent::ProbeAnswered { status: Some(201) }),
        BroadcastAction::Push { peer: 2, .. }
    ));
    assert!(matches!(
        broadcast_vertex(&mut b, &peers, BroadcastEvent::PushAnswered { status: Some(201) }),
        BroadcastAction::Finished
    ));
    assert!(matches!(b.outcome(&peers), Some(Ok(1))));
}

#[test]
fn broadcast_without_peers_is_over_at_once() {
    let peers: Vec<Peer> = Vec::new();
    let mut b = Broadcast::new();
    assert!(matches!(
        broadcast_vertex(&mut b, &peers, BroadcastEvent::Begin),
        BroadcastAction::Finished
    ));
    assert!(matches!(b.outcome(&peers), Some(Ok(0))));
}

#[test]
fn default_configuration() {
    let c = default_config("n1");
    assert_eq!(c.federation_name, "dev-federation");
    assert_eq!(c.node_id, "n1");
    assert_eq!(c.node_name, "node-n1");
    assert_eq!(c.sync_endpoint, "http://localhost:26657/dag/sync");
    assert_eq!(c.peers.len(), 1);
    assert_eq!(c.peers[0].id, "local");
    assert_eq!(c.peers[0].name, "localhost");
    assert_eq!(c.peers[0].address, "http://localhost:26657");
    assert_eq!(c.peers[0].last_seen, None);
}

#[test]
fn configuration_is_taken_from_the_first_source() {
    let mut stored = default_config("stored");
    stored.federation_name = "s".to_string();
    let mut named = default_config("named");
    named.federation_name = "d".to_string();
    let (c, source) = get_federation_config(Some(stored), Some(named));
    assert_eq!((c.node_id.as_str(), source), ("stored", ConfigSource::Stored));
    assert_eq!(c.federation_name, "s");
    let (c, source) = get_federation_config(None, Some(default_config("named")));
    assert_eq!((c.node_id.as_str(), source), ("named", ConfigSource::Directory));
    let (c, source) = get_federation_config(None, None);
    assert_eq!(source, ConfigSource::Default);
    assert_eq!(c.node_id.len(), 36);
    assert_eq!(c.node_name, format!("node-{}", c.node_id));
    assert_eq!(c.federation_name, "dev-federation");
    assert_eq!(c.peers.len(), 1);
    assert_eq!(c.peers[0].address, "http://localhost:26657");
}

#[test]
fn health_is_taken_at_the_present_moment() {
    let peers = vec![peer("a", "http://a"), peer("b", "http://b")];
    let status = check_federation_health(&peers, &vec![Some(404), Some(200)]);
    assert!(status.last_check.secs > 1_500_000_000);
    assert_eq!(status.online_peers.len(), 1);
    assert_eq!(status.online_peers[0].id, "b");
    assert_eq!(status.online_peers[0].last_seen, Some(status.last_check));
    assert_eq!(status.offline_peers.len(), 1);
    assert_eq!(status.offline_peers[0].id, "a");
}

#[test]
fn failed_tool_gives_its_words_and_code() {
    match shell_failure("Federation sync failed", "boom", Some(2)) {
        NodeError::ShellCommand { message, code } => {
            assert_eq!(message, "Federation sync failed: boom");
            assert_eq!(code, 2);
        }
        other => panic!("unexpected: {:?}", other),
    }
    match shell_failure("AgoraNet sync failed", "", None) {
        NodeError::ShellCommand { message, code } => {
            assert_eq!(message, "AgoraNet sync failed: ");
            assert_eq!(code, -1);
        }
        other => panic!("unexpected: {:?}", other),
    }
}

#[test]
fn federation_sync_results() {
    let run = |success: bool, code: Option<i32>, stderr: &str| ToolRun {
        success,
        code,
        stdout: String::new(),
        stderr: stderr.to_string(),
    };
    assert!(sync_with_federation(None).is_ok());
    assert!(sync_with_federation(Some(&run(true, Some(0), "noise"))).is_ok());
    match sync_with_federation(Some(&run(false, Some(7), "down"))) {
        Err(NodeError::ShellCommand { message, code }) => {
            assert_eq!(message, "Federation sync failed: down");
            assert_eq!(code, 7);
        }
        other => panic!("unexpected: {:?}", other),
    }
    match sync_with_federation(Some(&run(false, None, ""))) {
        Err(NodeError::ShellCommand { message, code }) => {
            assert_eq!(message, "Federation sync failed: ");
            assert_eq!(code, -1);
        }
        other => panic!("unexpected: {:?}", other),
    }
}

#[test]
fn broadcast_succeeds_when_every_peer_answers_badly() {
    let peers = vec![peer("a", "http://a"), peer("b", "http://b"), peer("c", "http://c")];
    let mut b = Broadcast::new();
    let mut action = broadcast_vertex(&mut b, &peers, BroadcastEvent::Begin);
    for status in [Some(404), Some(199), Some(300)] {
        assert!(matches!(action, BroadcastAction::Probe { .. }));
        action = broadcast_vertex(&mut b, &peers, BroadcastEvent::ProbeAnswered { status });
    }
    assert!(matches!(action, BroadcastAction::Finished));
    assert!(matches!(b.outcome(&peers), Some(Ok(0))));
}
