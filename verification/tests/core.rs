use anchorage::error::LavalinkRestError;
use anchorage::model::EncodedTrackUpdate;
use anchorage::model::Exception;
use anchorage::model::LavalinkFilters;
use anchorage::model::PlayerEvents;
use anchorage::model::Track;
use anchorage::model::TrackEnd;
use anchorage::model::TrackException;
use anchorage::model::TrackInfo;
use anchorage::model::TrackStart;
use anchorage::model::TrackStuck;
use anchorage::model::WebSocketClosed;
use anchorage::model::Cpu;
use anchorage::model::FrameStats;
use anchorage::model::Memory;
use anchorage::model::Stats;
use anchorage::player::Player;
use anchorage::rest::expect_body;
use anchorage::rest::HttpMethod;
use anchorage::rest::handle_response;
use anchorage::rest::Rest;
use anchorage::rest::RestOptions;
use anchorage::rest::RequestBody;
use anchorage::text::format_u64;
use anchorage::text::parse_u64;

fn track(encoded: &str) -> Track {
    Track {
        encoded: encoded.to_string(),
        info: TrackInfo {
            identifier: "id".to_string(),
            is_seekable: true,
            author: "author".to_string(),
            length: 100,
            is_stream: false,
            position: 0,
            title: "title".to_string(),
            uri: None,
            artwork_url: None,
            isrc: None,
            source_name: "src".to_string(),
        },
        plugin_info: None,
    }
}

fn stats(players: u32, cpu_term: u64, frames: Option<FrameStats>) -> Stats {
    Stats {
        players,
        playing_players: players,
        uptime: 1000,
        memory: Memory { free: 1, used: 2, allocated: 3, reservable: 4 },
        cpu: Cpu { cores: 4, system_load_penalty: cpu_term, lavalink_load_penalty: 0 },
        frame_stats: frames,
    }
}

#[test]
fn parse_u64_accepts_decimal_strings() {
    assert_eq!(parse_u64("0"), Some(0));
    assert_eq!(parse_u64("42"), Some(42));
    assert_eq!(parse_u64("007"), Some(7));
    assert_eq!(parse_u64("18446744073709551615"), Some(u64::MAX));
}

#[test]
fn parse_u64_rejects_bad_input() {
    assert_eq!(parse_u64(""), None);
    assert_eq!(parse_u64("abc"), None);
    assert_eq!(parse_u64("12a"), None);
    assert_eq!(parse_u64("-1"), None);
    assert_eq!(parse_u64("18446744073709551616"), None);
    assert_eq!(parse_u64("99999999999999999999999"), None);
}

#[test]
fn format_u64_renders_decimal() {
    assert_eq!(format_u64(0), "0");
    assert_eq!(format_u64(7), "7");
    assert_eq!(format_u64(1234567890), "1234567890");
    assert_eq!(format_u64(u64::MAX), "18446744073709551615");
}

#[test]
fn decimal_round_trip() {
    for n in [0u64, 1, 9, 10, 99, 100, 4242, u64::MAX] {
        assert_eq!(parse_u64(&format_u64(n)), Some(n));
    }
}

#[test]
fn event_guild_ids_decode_for_every_variant() {
    let gid = parse_u64("42").unwrap();
    let events = vec![
        PlayerEvents::TrackStartEvent(TrackStart { guild_id: gid, track: track("a") }),
        PlayerEvents::TrackEndEvent(TrackEnd {
            guild_id: gid,
            track: track("a"),
            reason: "finished".to_string(),
        }),
        PlayerEvents::TrackExceptionEvent(TrackException {
            guild_id: gid,
            track: track("a"),
            exception: Exception {
                guild_id: gid,
                message: None,
                severity: "common".to_string(),
                cause: "cause".to_string(),
            },
        }),
        PlayerEvents::TrackStuckEvent(TrackStuck {
            guild_id: gid,
            track: track("a"),
            threshold_ms: 10,
        }),
        PlayerEvents::WebSocketClosedEvent(WebSocketClosed {
            guild_id: gid,
            code: 1000,
            reason: "closed".to_string(),
            by_remote: true,
        }),
    ];
    for e in &events {
        assert_eq!(e.guild_id(), 42);
    }
}

#[test]
fn penalty_without_frame_stats_is_players_plus_cpu() {
    let s = stats(5, 2, None);
    assert_eq!(s.penalty(), 7);
}

#[test]
fn penalty_with_frame_stats_adds_deficit_and_double_nulled() {
    let cpu_term = (1.05f64).powf(50.0).round() as u64;
    let s = stats(1, cpu_term, Some(FrameStats { sent: 100, nulled: 2, deficit: 10 }));
    assert_eq!(s.penalty(), 1 + cpu_term + 10 + 4);
}

#[test]
fn penalty_treats_negative_deficit_as_zero() {
    let s = stats(3, 1, Some(FrameStats { sent: 0, nulled: 1, deficit: -50 }));
    assert_eq!(s.penalty(), 3 + 1 + 0 + 2);
}

#[test]
fn penalty_saturates_instead_of_overflowing() {
    let s = stats(10, u64::MAX, Some(FrameStats { sent: 0, nulled: 1, deficit: 1 }));
    assert_eq!(s.penalty(), u64::MAX);
}

#[test]
fn filter_merge_follows_documented_rule() {
    let mut existing = LavalinkFilters::none();
    existing.volume = Some("1.0".to_string());
    existing.karaoke = Some("{\"level\":0.5}".to_string());
    let mut update = LavalinkFilters::none();
    update.timescale = Some("{\"speed\":1.2}".to_string());
    let merged = update.merge(existing);
    assert_eq!(merged.volume.as_deref(), Some("1.0"));
    assert_eq!(merged.karaoke.as_deref(), Some("{\"level\":0.5}"));
    assert_eq!(merged.timescale.as_deref(), Some("{\"speed\":1.2}"));
    assert!(merged.tremolo.is_none());
    assert!(merged.plugin_filters.is_none());
}

#[test]
fn filter_merge_new_value_wins() {
    let mut existing = LavalinkFilters::none();
    existing.volume = Some("1.0".to_string());
    let mut update = LavalinkFilters::none();
    update.volume = Some("0.5".to_string());
    let merged = update.merge(existing);
    assert_eq!(merged.volume.as_deref(), Some("0.5"));
}

fn rest() -> Rest {
    Rest::new(RestOptions {
        url: "http://h:2333/v4".to_string(),
        auth: "secret".to_string(),
        user_agent: "Anchorage/0.1.0".to_string(),
    })
}

#[test]
fn session_scoped_operations_fail_without_session() {
    let r = rest();
    let none: Option<String> = None;
    assert!(matches!(r.get_player(&none, 7), Err(LavalinkRestError::NoSessionId)));
    assert!(matches!(r.get_players(&none), Err(LavalinkRestError::NoSessionId)));
    assert!(matches!(
        r.update_player(&none, 7, false, anchorage::model::LavalinkPlayerOptions::none()),
        Err(LavalinkRestError::NoSessionId)
    ));
    assert!(matches!(r.destroy_player(&none, 7), Err(LavalinkRestError::NoSessionId)));
    assert!(matches!(
        r.update_session(&none, anchorage::model::SessionInfo { resuming: true, timeout: 60 }),
        Err(LavalinkRestError::NoSessionId)
    ));
}

#[test]
fn session_scoped_url_carries_session_and_guild() {
    let r = rest();
    let session = Some("s1".to_string());
    let req = r.get_player(&session, 7).unwrap();
    assert!(matches!(req.method, HttpMethod::Get));
    assert_eq!(req.url, "http://h:2333/v4/sessions/s1/players/7");
    assert_eq!(req.headers[0].0, "Authorization");
    assert_eq!(req.headers[0].1, "secret");
    assert_eq!(req.headers[1].0, "User-Agent");
    assert_eq!(req.headers[1].1, "Anchorage/0.1.0");
    let all = r.get_players(&session).unwrap();
    assert_eq!(all.url, "http://h:2333/v4/sessions/s1/players");
}

#[test]
fn update_player_request_carries_flag_and_body() {
    let r = rest();
    let session = Some("s1".to_string());
    let opts = Player::new(7, "n".to_string()).update_volume(50);
    let req = r.update_player(&session, 7, true, opts).unwrap();
    assert!(matches!(req.method, HttpMethod::Patch));
    assert_eq!(req.url, "http://h:2333/v4/sessions/s1/players/7");
    assert_eq!(req.query, vec![("noReplace".to_string(), "true".to_string())]);
    assert_eq!(req.headers[2].0, "Content-Type");
    assert_eq!(req.headers[2].1, "application/json");
    match req.body {
        Some(RequestBody::PlayerOptions(o)) => assert_eq!(o.volume, Some(50)),
        _ => panic!("expected a player-options body"),
    }
}

#[test]
fn update_filters_request_submits_merged_sections() {
    let r = rest();
    let session = Some("s1".to_string());
    let p = Player::new(7, "n".to_string());
    let mut existing = LavalinkFilters::none();
    existing.volume = Some("1.0".to_string());
    existing.karaoke = Some("{\"level\":0.5}".to_string());
    let mut update = LavalinkFilters::none();
    update.timescale = Some("{\"speed\":1.2}".to_string());
    let options = p.update_filters(update, existing);
    let req = r.update_player(&session, 7, false, options).unwrap();
    assert_eq!(req.query, vec![("noReplace".to_string(), "false".to_string())]);
    match req.body {
        Some(RequestBody::PlayerOptions(o)) => {
            let f = o.filters.unwrap();
            assert_eq!(f.volume.as_deref(), Some("1.0"));
            assert_eq!(f.karaoke.as_deref(), Some("{\"level\":0.5}"));
            assert_eq!(f.timescale.as_deref(), Some("{\"speed\":1.2}"));
        }
        _ => panic!("expected a player-options body"),
    }
}

#[test]
fn plain_route_requests() {
    let r = rest();
    assert_eq!(r.resolve("ytsearch:abc".to_string()).url, "http://h:2333/v4/loadtracks");
    assert_eq!(
        r.resolve("ytsearch:abc".to_string()).query,
        vec![("identifier".to_string(), "ytsearch:abc".to_string())]
    );
    assert_eq!(r.decode("enc".to_string()).url, "http://h:2333/v4/decodetrack");
    assert_eq!(r.stats().url, "http://h:2333/v4/stats");
    assert_eq!(r.info().url, "http://h:2333/v4/info");
    assert_eq!(r.route_planner_status().url, "http://h:2333/v4/routeplanner/status");
    let free = r.unmark_failed_address("1.2.3.4".to_string());
    assert!(matches!(free.method, HttpMethod::Post));
    assert_eq!(free.url, "http://h:2333/v4/routeplanner/free/address");
    match free.body {
        Some(RequestBody::Raw(b)) => assert_eq!(b, "{\"address\":\"1.2.3.4\"}"),
        _ => panic!("expected a raw body"),
    }
}

#[test]
fn response_classification() {
    assert!(matches!(
        handle_response(404, "nope".to_string()),
        Err(LavalinkRestError::ResponseReceivedNotOk(404))
    ));
    assert!(matches!(
        handle_response(500, String::new()),
        Err(LavalinkRestError::ResponseReceivedNotOk(500))
    ));
    assert!(matches!(handle_response(204, String::new()), Ok(None)));
    match handle_response(200, "{}".to_string()) {
        Ok(Some(b)) => assert_eq!(b, "{}"),
        _ => panic!("expected a body"),
    }
    assert!(matches!(
        expect_body(None),
        Err(LavalinkRestError::NothingReturned)
    ));
    assert_eq!(expect_body(Some("x".to_string())).unwrap(), "x");
}

#[test]
fn play_and_stop_are_distinct_track_updates() {
    let p = Player::new(42, "node".to_string());
    let play = p.play("encoded".to_string());
    match play.track.unwrap().encoded {
        Some(EncodedTrackUpdate::Encoded(t)) => assert_eq!(t, "encoded"),
        _ => panic!("play must set the encoded track"),
    }
    let stop = p.stop();
    assert!(matches!(
        stop.track.unwrap().encoded,
        Some(EncodedTrackUpdate::Clear)
    ));
    assert!(stop.volume.is_none() && stop.paused.is_none() && stop.filters.is_none());
}

#[test]
fn player_update_builders_touch_one_field() {
    let p = Player::new(42, "node".to_string());
    let pause = p.pause(false);
    assert_eq!(pause.paused, Some(true));
    assert!(pause.track.is_none());
    let unpause = p.pause(true);
    assert_eq!(unpause.paused, Some(false));
    let vol = p.update_volume(80);
    assert_eq!(vol.volume, Some(80));
    assert!(vol.paused.is_none());
    let pos = p.update_position(1234);
    assert_eq!(pos.position, Some(1234));
    let cleared = p.clear_filters();
    let f = cleared.filters.unwrap();
    assert!(f.volume.is_none() && f.karaoke.is_none() && f.plugin_filters.is_none());
}

#[test]
fn update_filters_builder_merges() {
    let p = Player::new(42, "node".to_string());
    let mut existing = LavalinkFilters::none();
    existing.volume = Some("1.0".to_string());
    existing.karaoke = Some("{\"level\":0.5}".to_string());
    let mut update = LavalinkFilters::none();
    update.timescale = Some("{\"speed\":1.2}".to_string());
    let o = p.update_filters(update, existing);
    let f = o.filters.unwrap();
    assert_eq!(f.volume.as_deref(), Some("1.0"));
    assert_eq!(f.karaoke.as_deref(), Some("{\"level\":0.5}"));
    assert_eq!(f.timescale.as_deref(), Some("{\"speed\":1.2}"));
}

#[test]
fn update_connection_builder_maps_credentials() {
    let p = Player::new(42, "node".to_string());
    let o = p.update_connection(anchorage::anchorage::ConnectionOptions {
        channel_id: Some(5),
        endpoint: "ep".to_string(),
        guild_id: 42,
        session_id: "vs".to_string(),
        token: "tok".to_string(),
        user_id: 1,
    });
    let v = o.voice.unwrap();
    assert_eq!(v.token, "tok");
    assert_eq!(v.endpoint, "ep");
    assert_eq!(v.session_id, "vs");
    assert!(v.connected.is_none() && v.ping.is_none());
}
