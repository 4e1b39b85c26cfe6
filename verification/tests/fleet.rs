use anchorage::anchorage::Anchorage;
use anchorage::anchorage::NodeOptions;
use anchorage::anchorage::Options;
use anchorage::error::AnchorageError;
use anchorage::error::LavalinkNodeError;
use anchorage::error::LavalinkRestError;
use anchorage::manager::CommandAction;
use anchorage::manager::ConnectStep;
use anchorage::manager::MessageOutcome;
use anchorage::manager::NodeManager;
use anchorage::manager::NodeManagerOptions;
use anchorage::manager::WebsocketCommand;
use anchorage::model::Cpu;
use anchorage::model::EventType;
use anchorage::model::FrameStats;
use anchorage::model::LavalinkMessage;
use anchorage::model::Memory;
use anchorage::model::PlayerEvents;
use anchorage::model::Ready;
use anchorage::model::Stats;
use anchorage::model::Track;
use anchorage::model::TrackEnd;
use anchorage::model::TrackInfo;

fn node_options(name: &str, port: u32) -> NodeOptions {
    NodeOptions {
        name: name.to_string(),
        host: "localhost".to_string(),
        port,
        auth: "secret".to_string(),
    }
}

fn manager(name: &str, reconnect_tries: u16) -> NodeManager {
    NodeManager::new(NodeManagerOptions {
        name: name.to_string(),
        host: "localhost".to_string(),
        port: 2333,
        auth: "secret".to_string(),
        id: 1,
        user_agent: "Anchorage/0.1.0".to_string(),
        reconnect_tries,
    })
}

fn stats(players: u32, cpu_term: u64, frames: Option<FrameStats>) -> Stats {
    Stats {
        players,
        playing_players: players,
        uptime: 1000,
        memory: Memory { free: 1, used: 2, allocated: 3, reservable: 4 },
        cpu: Cpu { cores: 4, system_load_penalty: cpu_term, lavalink_load_penalty: 0 },
        frame_stats: frames,
    }
}

fn track_end(guild_id: u64) -> PlayerEvents {
    PlayerEvents::TrackEndEvent(TrackEnd {
        guild_id,
        track: Track {
            encoded: "enc".to_string(),
            info: TrackInfo {
                identifier: "id".to_string(),
                is_seekable: true,
                author: "author".to_string(),
                length: 100,
                is_stream: false,
                position: 0,
                title: "title".to_string(),
                uri: None,
                artwork_url: None,
                isrc: None,
                source_name: "src".to_string(),
            },
            plugin_info: None,
        },
        reason: "finished".to_string(),
    })
}

fn fleet(names: &[&str]) -> Anchorage {
    let mut a = Anchorage::new(Options { user_agent: None, reconnect_tries: None });
    let data: Vec<NodeOptions> =
        names.iter().enumerate().map(|(i, n)| node_options(n, 2333 + i as u32)).collect();
    a.start(1, data);
    a
}

#[test]
fn registry_defaults() {
    let a = Anchorage::new(Options { user_agent: None, reconnect_tries: None });
    assert_eq!(a.user_agent, "Anchorage/0.1.0");
    assert_eq!(a.reconnect_tries, u16::MAX);
    assert!(a.nodes.is_empty());
    let b = Anchorage::new(Options {
        user_agent: Some("custom/1".to_string()),
        reconnect_tries: Some(3),
    });
    assert_eq!(b.user_agent, "custom/1");
    assert_eq!(b.reconnect_tries, 3);
}

#[test]
fn manager_derives_urls_from_descriptor() {
    let m = manager("a", 2);
    assert_eq!(m.url, "ws://localhost:2333/v4/websocket");
    assert_eq!(m.rest.url, "http://localhost:2333/v4");
    assert_eq!(m.rest.auth, "secret");
    assert!(m.session_id.is_none());
    assert!(m.statistics.is_none());
    assert_eq!(m.penalties, 0);
    assert!(!m.destroyed);
}

#[test]
fn start_keeps_first_node_on_duplicate_names() {
    let mut a = Anchorage::new(Options { user_agent: None, reconnect_tries: None });
    a.start(1, vec![node_options("a", 1111), node_options("a", 2222), node_options("b", 3333)]);
    assert_eq!(a.nodes.len(), 2);
    assert_eq!(a.nodes[0].name, "a");
    assert_eq!(a.nodes[0].url, "ws://localhost:1111/v4/websocket");
    assert_eq!(a.nodes[1].name, "b");
}

#[test]
fn ready_frame_stores_session_id() {
    let mut m = manager("a", 2);
    let out = m.handle_message(Ok(Some(LavalinkMessage::Ready(Ready {
        resumed: false,
        session_id: "s1".to_string(),
    }))));
    assert!(matches!(out, MessageOutcome::Handled));
    assert_eq!(m.session_id.as_deref(), Some("s1"));
}

#[test]
fn stats_frames_update_penalty_to_last_frame() {
    let mut m = manager("a", 2);
    for s in [stats(1, 1, None), stats(9, 9, None), stats(5, 2, None)] {
        m.handle_message(Ok(Some(LavalinkMessage::Stats(s))));
    }
    assert_eq!(m.penalties, 7);
    assert_eq!(m.statistics.as_ref().unwrap().players, 5);
}

#[test]
fn stream_error_asks_for_reconnect() {
    let mut m = manager("a", 2);
    let out = m.handle_message(Err(LavalinkNodeError::ConnectionClosed));
    assert!(matches!(out, MessageOutcome::Reconnect));
    let out = m.handle_message(Err(LavalinkNodeError::Transport));
    assert!(matches!(out, MessageOutcome::Reconnect));
    let out = m.handle_message(Ok(None));
    assert!(matches!(out, MessageOutcome::Handled));
}

#[test]
fn reconnect_exhausts_after_configured_tries() {
    let mut m = manager("a", 2);
    match m.connect_step(false) {
        ConnectStep::RetryAfter(secs) => assert_eq!(secs, 5),
        _ => panic!("first failure must retry"),
    }
    assert_eq!(m.reconnects, 1);
    assert!(matches!(
        m.connect_step(false),
        ConnectStep::Fail(LavalinkNodeError::Transport)
    ));
    assert_eq!(m.reconnects, 0);
}

#[test]
fn reconnect_success_resets_counter() {
    let mut m = manager("a", 5);
    assert!(matches!(m.connect_step(false), ConnectStep::RetryAfter(5)));
    assert!(matches!(m.connect_step(true), ConnectStep::Connected));
    assert_eq!(m.reconnects, 0);
}

#[test]
fn handshake_request_carries_identity_and_session() {
    let mut m = manager("a", 2);
    let r = m.handshake_request();
    assert_eq!(r.url, "ws://localhost:2333/v4/websocket");
    let headers: Vec<(String, String)> = r.headers;
    assert_eq!(headers[0], ("Host".to_string(), "localhost:2333".to_string()));
    assert_eq!(headers[1], ("Connection".to_string(), "Upgrade".to_string()));
    assert_eq!(headers[2], ("Upgrade".to_string(), "websocket".to_string()));
    assert_eq!(headers[3], ("Sec-WebSocket-Version".to_string(), "13".to_string()));
    assert_eq!(headers[4], ("User-Id".to_string(), "1".to_string()));
    assert_eq!(headers[5], ("Authorization".to_string(), "secret".to_string()));
    assert_eq!(headers[6], ("Session-Id".to_string(), String::new()));
    assert_eq!(headers[7], ("Client-Name".to_string(), "Anchorage/0.1.0".to_string()));
    assert_eq!(headers[8], ("User-Agent".to_string(), "Anchorage/0.1.0".to_string()));
    m.handle_message(Ok(Some(LavalinkMessage::Ready(Ready {
        resumed: false,
        session_id: "s9".to_string(),
    }))));
    let r2 = m.handshake_request();
    assert_eq!(r2.headers[6], ("Session-Id".to_string(), "s9".to_string()));
}

#[test]
fn commands_are_processed_in_order() {
    let mut a = fleet(&["a"]);
    let _ = a.create_player(42, &"a".to_string()).unwrap();
    let actions = a.nodes[0].handle_commands(vec![
        WebsocketCommand::GetData,
        WebsocketCommand::Connect,
        WebsocketCommand::Disconnect,
        WebsocketCommand::GetData,
        WebsocketCommand::Destroy,
    ]);
    assert_eq!(actions.len(), 5);
    match &actions[0] {
        CommandAction::Data(d) => assert_eq!(d.name, "a"),
        _ => panic!("first action must answer the snapshot"),
    }
    assert!(matches!(actions[1], CommandAction::RunConnect));
    match &actions[2] {
        CommandAction::Acked(delivered) => assert_eq!(delivered, &vec![42]),
        _ => panic!("disconnect must acknowledge with the subscribed tenants"),
    }
    assert!(matches!(&actions[3], CommandAction::Data(_)));
    match &actions[4] {
        CommandAction::Acked(delivered) => assert!(delivered.is_empty()),
        _ => panic!("destroy must acknowledge"),
    }
    assert!(a.nodes[0].destroyed);
}

#[test]
fn ideal_node_is_true_minimum() {
    let mut a = fleet(&["one", "two", "three"]);
    let t1 = (1.05f64).powf(100.0 * 0.1).round() as u64;
    let t2 = (1.05f64).powf(100.0 * 0.5).round() as u64;
    let t3 = (1.05f64).powf(100.0 * 0.2).round() as u64;
    a.nodes[0].handle_message(Ok(Some(LavalinkMessage::Stats(stats(5, t1, None)))));
    a.nodes[1].handle_message(Ok(Some(LavalinkMessage::Stats(stats(
        1,
        t2,
        Some(FrameStats { sent: 100, nulled: 2, deficit: 10 }),
    )))));
    a.nodes[2].handle_message(Ok(Some(LavalinkMessage::Stats(stats(10, t3, None)))));
    assert_eq!(a.nodes[0].penalties, 5 + t1);
    assert_eq!(a.nodes[1].penalties, 1 + t2 + 10 + 4);
    assert_eq!(a.nodes[2].penalties, 10 + t3);
    assert!(a.nodes[0].penalties < a.nodes[1].penalties);
    assert!(a.nodes[0].penalties < a.nodes[2].penalties);
    assert_eq!(a.get_ideal_node().unwrap(), "one");
}

#[test]
fn ideal_node_on_empty_fleet_fails() {
    let a = Anchorage::new(Options { user_agent: None, reconnect_tries: None });
    assert!(matches!(a.get_ideal_node(), Err(AnchorageError::NoNodesAvailable)));
}

#[test]
fn create_player_pins_tenant_to_one_node() {
    let mut a = fleet(&["a", "b"]);
    let (player, _rx) = a.create_player(42, &"a".to_string()).unwrap();
    assert_eq!(player.guild_id, 42);
    assert_eq!(player.node, "a");
    assert!(matches!(
        a.create_player(42, &"b".to_string()),
        Err(AnchorageError::CreateExistingPlayer)
    ));
    assert_eq!(a.get_node_for_player(42), Some(0));
    let owners = a.nodes.iter().filter(|n| n.has_subscription(42)).count();
    assert_eq!(owners, 1);
}

#[test]
fn unique_ownership_over_create_destroy_sequences() {
    let mut a = fleet(&["a", "b"]);
    let _keep1 = a.create_player(1, &"a".to_string()).unwrap();
    let _keep2 = a.create_player(2, &"b".to_string()).unwrap();
    assert!(a.destroy_player_finish(1));
    let _keep3 = a.create_player(1, &"b".to_string()).unwrap();
    let _keep4 = a.create_player(3, &"a".to_string()).unwrap();
    for g in [1u64, 2, 3, 4] {
        let owners = a.nodes.iter().filter(|n| n.has_subscription(g)).count();
        assert!(owners <= 1);
    }
    assert_eq!(a.get_node_for_player(1), Some(1));
    assert_eq!(a.get_node_for_player(4), None);
}

#[test]
fn destroy_flow_delivers_event_then_terminal_marker() {
    let mut a = fleet(&["a"]);
    a.nodes[0].handle_message(Ok(Some(LavalinkMessage::Ready(Ready {
        resumed: false,
        session_id: "s1".to_string(),
    }))));
    let (_player, rx) = a.create_player(42, &"a".to_string()).unwrap();

    let out = a.nodes[0].handle_message(Ok(Some(LavalinkMessage::Event(track_end(42)))));
    assert!(matches!(out, MessageOutcome::Emitted(42)));
    match rx.try_recv().unwrap() {
        EventType::Player(PlayerEvents::TrackEndEvent(e)) => assert_eq!(e.guild_id, 42),
        _ => panic!("the subscriber must observe the track-end event"),
    }

    let req = a.destroy_player_begin(42).unwrap().unwrap();
    assert_eq!(req.url, "http://localhost:2333/v4/sessions/s1/players/42");
    assert!(a.destroy_player_finish(42));
    assert!(matches!(rx.try_recv().unwrap(), EventType::Destroyed));
    assert!(matches!(rx.try_recv(), Err(flume::TryRecvError::Disconnected)));

    assert!(matches!(a.destroy_player_begin(42), Ok(None)));
    assert!(!a.destroy_player_finish(42));
}

#[test]
fn events_for_unknown_tenants_are_dropped() {
    let mut a = fleet(&["a"]);
    let (_player, rx) = a.create_player(42, &"a".to_string()).unwrap();
    let out = a.nodes[0].handle_message(Ok(Some(LavalinkMessage::Event(track_end(7)))));
    assert!(matches!(out, MessageOutcome::Dropped(7)));
    assert!(matches!(rx.try_recv(), Err(flume::TryRecvError::Empty)));
}

#[test]
fn destroy_without_session_keeps_subscription() {
    let mut a = fleet(&["a"]);
    let (_player, rx) = a.create_player(42, &"a".to_string()).unwrap();
    assert!(matches!(
        a.destroy_player_begin(42),
        Err(AnchorageError::LavalinkRest(LavalinkRestError::NoSessionId))
    ));
    assert!(a.nodes[0].has_subscription(42));
    assert!(matches!(rx.try_recv(), Err(flume::TryRecvError::Empty)));
}

#[test]
fn disconnect_broadcasts_one_terminal_marker_each() {
    let mut a = fleet(&["a"]);
    let (_p1, rx1) = a.create_player(1, &"a".to_string()).unwrap();
    let (_p2, rx2) = a.create_player(2, &"a".to_string()).unwrap();
    let delivered = a.disconnect(&"a".to_string(), false).unwrap();
    assert_eq!(delivered, vec![1, 2]);
    assert!(matches!(rx1.try_recv().unwrap(), EventType::Destroyed));
    assert!(matches!(rx1.try_recv(), Err(flume::TryRecvError::Disconnected)));
    assert!(matches!(rx2.try_recv().unwrap(), EventType::Destroyed));
    assert!(matches!(rx2.try_recv(), Err(flume::TryRecvError::Disconnected)));
    assert_eq!(a.nodes.len(), 1);
    assert!(!a.nodes[0].destroyed);
}

#[test]
fn disconnect_with_destroy_removes_the_node() {
    let mut a = fleet(&["a", "b"]);
    let (_p, rx) = a.create_player(1, &"a".to_string()).unwrap();
    let delivered = a.disconnect(&"a".to_string(), true).unwrap();
    assert_eq!(delivered, vec![1]);
    assert!(matches!(rx.try_recv().unwrap(), EventType::Destroyed));
    assert_eq!(a.nodes.len(), 1);
    assert_eq!(a.nodes[0].name, "b");
    assert!(a.disconnect(&"a".to_string(), false).is_none());
}

#[test]
fn get_session_id_reads_the_shared_cell() {
    let a = fleet(&["a"]);
    let rest = &a.nodes[0].rest;
    assert!(matches!(
        rest.get_session_id(&None),
        Err(LavalinkRestError::NoSessionId)
    ));
    assert_eq!(rest.get_session_id(&Some("s1".to_string())).unwrap(), "s1");
}
