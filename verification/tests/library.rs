use wwise_rank::config::{next_backoff, read_setting, Config, BACKOFF_INITIAL_MS, BACKOFF_MAX_MS};
use wwise_rank::monitor::{Monitor, MonitorAction, MonitorEvent, MonitorPhase};
use wwise_rank::ports::{open_ports_sorted, ports_in_range, waapi_url};
use wwise_rank::score_table::ScoreTable;
use wwise_rank::settings::{TopicSetting, UserSettings};
use wwise_rank::state::{AppState, ConnState, ScoreData};
use wwise_rank::text::{parse_u64, push_decimal};
use wwise_rank::topics::{is_disabled_by_default, topics, ScoreConfig};

fn setting(uri: &str, score: u64, enabled: bool) -> TopicSetting {
    TopicSetting { uri: uri.to_string(), score, enabled }
}

#[test]
fn topics_are_the_waapi_uris_in_order() {
    let t = topics();
    assert_eq!(t.len(), 22);
    assert_eq!(t[0], "ak.wwise.core.audio.imported");
    assert_eq!(t[1], "ak.wwise.core.object.attenuationCurveChanged");
    assert_eq!(t[2], "ak.wwise.core.object.attenuationCurveLinkChanged");
    assert_eq!(t[3], "ak.wwise.core.object.childAdded");
    assert_eq!(t[4], "ak.wwise.core.object.childRemoved");
    assert_eq!(t[5], "ak.wwise.core.object.created");
    assert_eq!(t[6], "ak.wwise.core.object.curveChanged");
    assert_eq!(t[7], "ak.wwise.core.object.nameChanged");
    assert_eq!(t[8], "ak.wwise.core.object.notesChanged");
    assert_eq!(t[9], "ak.wwise.core.object.postDeleted");
    assert_eq!(t[10], "ak.wwise.core.object.propertyChanged");
    assert_eq!(t[11], "ak.wwise.core.object.referenceChanged");
    assert_eq!(t[12], "ak.wwise.core.object.structureChanged");
    assert_eq!(t[13], "ak.wwise.core.project.loaded");
    assert_eq!(t[14], "ak.wwise.core.project.postClosed");
    assert_eq!(t[15], "ak.wwise.core.project.saved");
    assert_eq!(t[16], "ak.wwise.core.soundbank.generated");
    assert_eq!(t[17], "ak.wwise.core.soundbank.generationDone");
    assert_eq!(t[18], "ak.wwise.core.switchContainer.assignmentAdded");
    assert_eq!(t[19], "ak.wwise.core.switchContainer.assignmentRemoved");
    assert_eq!(t[20], "ak.wwise.core.transport.stateChanged");
    assert_eq!(t[21], "ak.wwise.ui.selectionChanged");
}

#[test]
fn default_scores_are_the_built_in_table() {
    let d = ScoreConfig::defaults();
    assert_eq!(d.len(), 22);
    assert_eq!(d.get("ak.wwise.core.audio.imported"), Some(4));
    assert_eq!(d.get("ak.wwise.core.object.created"), Some(5));
    assert_eq!(d.get("ak.wwise.core.object.structureChanged"), Some(5));
    assert_eq!(d.get("ak.wwise.core.object.nameChanged"), Some(2));
    assert_eq!(d.get("ak.wwise.ui.selectionChanged"), Some(1));
    assert_eq!(d.get("ak.wwise.core.log.itemAdded"), None);
}

#[test]
fn default_settings_scores_and_disabled_topics() {
    let s = UserSettings::default();
    assert_eq!(s.port_start, 8080);
    assert_eq!(s.port_end, 8083);
    assert_eq!(s.topics.len(), 22);
    for (t, uri) in s.topics.iter().zip(topics()) {
        assert_eq!(t.uri, uri);
    }
    assert_eq!(s.topics[0].score, 4);
    assert!(s.topics[0].enabled);
    assert!(!s.topics[10].enabled);
    assert!(!s.topics[12].enabled);
    assert!(!s.topics[20].enabled);
    assert_eq!(s.topics.iter().filter(|t| !t.enabled).count(), 3);
    assert!(is_disabled_by_default("ak.wwise.core.transport.stateChanged"));
    assert!(!is_disabled_by_default("ak.wwise.core.project.saved"));
}

#[test]
fn merge_appends_missing_topics_enabled_in_order_and_keeps_unknown_ones() {
    let partial = UserSettings {
        port_start: 1,
        port_end: 2,
        topics: vec![
            setting("custom.topic", 7, false),
            setting("ak.wwise.core.transport.stateChanged", 9, false),
        ],
    };
    let merged = partial.with_missing_topics();
    assert_eq!(merged.port_start, 1);
    assert_eq!(merged.port_end, 2);
    assert_eq!(merged.topics.len(), 2 + 21);
    assert_eq!(merged.topics[0].uri, "custom.topic");
    assert_eq!(merged.topics[0].score, 7);
    assert!(!merged.topics[0].enabled);
    assert_eq!(merged.topics[1].score, 9);
    assert_eq!(merged.topics[2].uri, "ak.wwise.core.audio.imported");
    assert_eq!(merged.topics[2].score, 4);
    // Topics added to loaded settings are filled with their defaults: those
    // that start disabled in fresh settings are added disabled.
    let prop = merged
        .topics
        .iter()
        .find(|t| t.uri == "ak.wwise.core.object.propertyChanged")
        .unwrap();
    assert!(!prop.enabled);
    assert_eq!(prop.score, 3);
    let created = merged.topics.iter().find(|t| t.uri == "ak.wwise.core.object.created").unwrap();
    assert!(created.enabled);
    assert_eq!(created.score, 5);
    let defaults = UserSettings::default();
    for added in &merged.topics[2..] {
        let d = defaults.topics.iter().find(|t| t.uri == added.uri).unwrap();
        assert_eq!(added.score, d.score);
        assert_eq!(added.enabled, d.enabled);
    }
    assert_eq!(merged.topics[22].uri, "ak.wwise.ui.selectionChanged");
    let again = UserSettings {
        port_start: merged.port_start,
        port_end: merged.port_end,
        topics: merged.topics.iter().map(|t| setting(&t.uri, t.score, t.enabled)).collect(),
    }
    .with_missing_topics();
    assert_eq!(again.topics.len(), merged.topics.len());
}

#[test]
fn nothing_loaded_gives_defaults() {
    let s = UserSettings::load_or_default_from(None);
    assert_eq!(s.port_start, 8080);
    assert_eq!(s.topics.len(), 22);
}

#[test]
fn subscription_plan_uses_first_setting() {
    let s = UserSettings {
        port_start: 8080,
        port_end: 8083,
        topics: vec![
            setting("ak.wwise.core.object.created", 42, true),
            setting("ak.wwise.core.object.created", 1, false),
            setting("ak.wwise.core.audio.imported", 4, false),
        ],
    };
    let plan = s.subscription_plan();
    // Every topic but audio.imported, which is disabled.
    assert_eq!(plan.len(), 21);
    assert_eq!(plan[0], ("ak.wwise.core.object.attenuationCurveChanged", 1));
    let created = plan.iter().find(|p| p.0 == "ak.wwise.core.object.created").unwrap();
    assert_eq!(created.1, 42);
    let defaults = UserSettings::default().subscription_plan();
    assert_eq!(defaults.len(), 19);
    assert_eq!(defaults[0], ("ak.wwise.core.audio.imported", 4));
}

#[test]
fn parse_reads_like_std() {
    assert_eq!(parse_u64("123"), Some(123));
    assert_eq!(parse_u64("+7"), Some(7));
    assert_eq!(parse_u64("007"), Some(7));
    assert_eq!(parse_u64("18446744073709551615"), Some(u64::MAX));
    assert_eq!(parse_u64("18446744073709551616"), None);
    assert_eq!(parse_u64(""), None);
    assert_eq!(parse_u64("+"), None);
    assert_eq!(parse_u64("-1"), None);
    assert_eq!(parse_u64(" 1"), None);
    assert_eq!(parse_u64("12a"), None);
    for s in ["0", "+0", "99999", "4294967296", "x", "1 "] {
        assert_eq!(parse_u64(s), s.parse::<u64>().ok());
    }
}

#[test]
fn config_defaults_and_bad_values() {
    let c = Config::from_env_values(None, Some("x"), Some("9"), None, None, Some("10"), None);
    assert_eq!(c.tcp_probe_timeout_ms, 300);
    assert_eq!(c.connect_timeout_secs, 4);
    assert_eq!(c.getinfo_timeout_secs, 9);
    assert_eq!(c.subscribe_timeout_secs, 5);
    assert_eq!(c.disconnect_timeout_secs, 2);
    assert_eq!(c.backoff_initial_ms, 10);
    assert_eq!(c.backoff_max_ms, 30_000);
    assert_eq!(read_setting(Some("5"), 1), 5);
}

#[test]
fn repeated_failures_reach_the_cap_and_stay() {
    let mut b = 1u64;
    let mut prev = 0u64;
    for k in 1..=70 {
        b = next_backoff(b, u64::MAX - 5);
        assert!(b >= prev);
        prev = b;
        if k >= 64 {
            assert_eq!(b, u64::MAX - 5);
        }
    }
    let mut z = 0u64;
    for _ in 0..10 {
        z = next_backoff(z, 100);
    }
    assert_eq!(z, 0);
}

#[test]
fn monitor_keeps_retrying() {
    let config = Config::from_env_values(None, None, None, None, None, Some("1500"), Some("30000"));
    let mut m = Monitor::new(&config);
    for _ in 0..3 {
        m.step(MonitorEvent::WaitElapsed);
        assert_eq!(m.phase, MonitorPhase::Probing);
        m.step(MonitorEvent::PortsProbed { any_open: true });
        m.step(MonitorEvent::ConnectAttempted { connected: true });
        assert_eq!(m.phase, MonitorPhase::Connected);
        let s = m.step(MonitorEvent::PollElapsed { client_connected: false });
        assert_eq!(s.action, m.pending());
        m.step(MonitorEvent::Disconnected);
        assert_eq!(m.phase, MonitorPhase::Waiting);
    }
}

#[test]
fn backoff_saturates_and_caps() {
    assert_eq!(next_backoff(u64::MAX, u64::MAX), u64::MAX);
    assert_eq!(next_backoff(0, 10), 0);
    assert_eq!(next_backoff(BACKOFF_INITIAL_MS, BACKOFF_MAX_MS), 3000);
    assert_eq!(next_backoff(20_000, BACKOFF_MAX_MS), 30_000);
}

#[test]
fn url_and_decimal_text() {
    assert_eq!(waapi_url(8080), "ws://127.0.0.1:8080/waapi");
    assert_eq!(waapi_url(0), "ws://127.0.0.1:0/waapi");
    assert_eq!(waapi_url(65535), "ws://127.0.0.1:65535/waapi");
    let mut s = String::from("n=");
    push_decimal(&mut s, 1234567890);
    assert_eq!(s, "n=1234567890");
}

#[test]
fn port_range_and_open_ports() {
    assert_eq!(ports_in_range(8080, 8083), vec![8080, 8081, 8082, 8083]);
    assert_eq!(ports_in_range(9090, 9090), vec![9090]);
    assert_eq!(ports_in_range(5, 4), Vec::<u16>::new());
    assert_eq!(ports_in_range(65534, 65535), vec![65534, 65535]);
    let probed = vec![(8083, true), (8080, false), (8082, true), (8081, true), (8082, true)];
    assert_eq!(open_ports_sorted(&probed), vec![8081, 8082, 8082, 8083]);
    assert_eq!(open_ports_sorted(&vec![(1, false)]), Vec::<u16>::new());
}

#[test]
fn score_table_insert_get_increment() {
    let mut t = ScoreTable::new();
    assert_eq!(t.len(), 0);
    t.increment("a");
    t.increment("a");
    t.increment("b");
    assert_eq!(t.get("a"), Some(2));
    assert_eq!(t.get("b"), Some(1));
    assert!(!t.contains_key("c"));
    t.insert("a".to_string(), 10);
    assert_eq!(t.get("a"), Some(10));
    assert_eq!(t.len(), 2);
    let c = t.copy();
    t.clear();
    assert_eq!(t.len(), 0);
    assert_eq!(c.get("a"), Some(10));
    let later_wins = ScoreTable::from_pairs(vec![("k".to_string(), 1), ("k".to_string(), 3)]);
    assert_eq!(later_wins.get("k"), Some(3));
    assert_eq!(later_wins.to_pairs(), vec![("k".to_string(), 3)]);
}

#[test]
fn events_raise_scores_counts_and_meter() {
    let mut st = AppState::new(ScoreData::default());
    assert_eq!(st.conn_state, ConnState::Idle);
    st.record_event("ak.wwise.core.object.created", 5);
    assert_eq!(st.score.total_score, 5);
    assert_eq!(st.session_score, 5);
    assert!(st.score_dirty);
    assert_eq!(st.recent_events, 3);
    assert_eq!(st.score.event_counts.get("ak.wwise.core.object.created"), Some(1));
    st.record_event("ak.wwise.core.object.created", 5);
    st.record_event("ak.wwise.core.project.saved", 3);
    assert_eq!(st.score.event_counts.get("ak.wwise.core.object.created"), Some(2));
    assert_eq!(st.score.total_score, 13);
    assert_eq!(st.recent_events, 9);
    for _ in 0..20 {
        st.record_event("x", 1);
    }
    assert_eq!(st.recent_events, 24);
    assert!(st.event_fits_exec("x", 1));
    let mut full = AppState::new(ScoreData { total_score: u64::MAX, event_counts: ScoreTable::new() });
    assert!(!full.event_fits_exec("x", 1));
    assert!(full.event_fits_exec("x", 0));
    full.record_event("x", 0);
    assert_eq!(full.score.total_score, u64::MAX);
}

#[test]
fn meter_decays_by_two_on_ticks() {
    let mut st = AppState::new(ScoreData::default());
    assert!(!st.decay_meter());
    st.record_event("x", 1);
    assert!(st.decay_meter());
    assert_eq!(st.recent_events, 1);
    assert!(st.decay_meter());
    assert_eq!(st.recent_events, 0);
    assert!(!st.decay_meter());
}

#[test]
fn flush_only_when_dirty_and_interval_passed() {
    let mut st = AppState::new(ScoreData::default());
    assert!(st.take_score_to_flush(10_000).is_none());
    st.record_event("x", 2);
    assert!(st.take_score_to_flush(2999).is_none());
    assert!(st.score_dirty);
    let snap = st.take_score_to_flush(3000).unwrap();
    assert_eq!(snap.total_score, 2);
    assert_eq!(snap.event_counts.get("x"), Some(1));
    assert!(!st.score_dirty);
    assert!(st.take_score_to_flush(3000).is_none());
}

#[test]
fn reset_clears_rank_keeps_session() {
    let mut st = AppState::new(ScoreData::default());
    st.record_event("x", 4);
    st.reset_total_score();
    assert_eq!(st.score.total_score, 0);
    assert_eq!(st.score.event_counts.len(), 0);
    assert!(!st.score_dirty);
    assert_eq!(st.session_score, 4);
}

#[test]
fn conn_state_changes_and_payload() {
    let mut st = AppState::new(ScoreData::default());
    assert!(!st.set_conn_state(ConnState::Idle));
    assert!(st.set_conn_state(ConnState::Scanning));
    assert!(!st.set_conn_state(ConnState::Scanning));
    st.record_event("x", 2);
    let p = st.payload();
    assert_eq!(p.state, "Scanning");
    assert_eq!(p.total_score, 2);
    assert_eq!(p.session_score, 2);
    assert_eq!(p.recent_events, 3);
    assert_eq!(p.event_counts.get("x"), Some(1));
    assert!(st.set_conn_state(ConnState::Connected));
    assert_eq!(st.payload().state, "Connected");
    assert_eq!(ConnState::Idle.name(), "Idle");
}

#[test]
fn monitor_round_trip() {
    let config = Config::from_env_values(None, None, None, None, None, Some("1000"), Some("3000"));
    let mut m = Monitor::new(&config);
    assert_eq!(m.pending(), MonitorAction::Sleep { ms: 1000 });
    let s = m.step(MonitorEvent::WaitElapsed);
    assert_eq!(s.action, MonitorAction::ProbePorts);
    assert_eq!(s.report, None);
    let s = m.step(MonitorEvent::PortsProbed { any_open: false });
    assert_eq!(s.report, Some(ConnState::Idle));
    assert_eq!(s.action, MonitorAction::Sleep { ms: 2000 });
    m.step(MonitorEvent::WaitElapsed);
    let s = m.step(MonitorEvent::PortsProbed { any_open: true });
    assert_eq!(s.report, Some(ConnState::Scanning));
    assert_eq!(s.action, MonitorAction::ConnectCandidates);
    let s = m.step(MonitorEvent::ConnectAttempted { connected: false });
    assert_eq!(s.action, MonitorAction::Sleep { ms: 3000 });
    m.step(MonitorEvent::WaitElapsed);
    m.step(MonitorEvent::PortsProbed { any_open: false });
    assert_eq!(m.backoff_ms, 3000);
    let s = m.step(MonitorEvent::ReconnectRequested);
    assert_eq!(s.action, MonitorAction::ProbePorts);
    assert_eq!(m.backoff_ms, 1000);
    m.step(MonitorEvent::PortsProbed { any_open: true });
    let s = m.step(MonitorEvent::ConnectAttempted { connected: true });
    assert_eq!(s.report, Some(ConnState::Connected));
    assert_eq!(s.action, MonitorAction::Poll { ms: 1500 });
    assert_eq!(m.phase, MonitorPhase::Connected);
    let s = m.step(MonitorEvent::PollElapsed { client_connected: true });
    assert_eq!(s.action, MonitorAction::Poll { ms: 1500 });
    // An event the phase is not waiting for changes nothing.
    let s = m.step(MonitorEvent::Disconnected);
    assert_eq!(s.action, MonitorAction::Poll { ms: 1500 });
    assert_eq!(m.phase, MonitorPhase::Connected);
    let s = m.step(MonitorEvent::ReconnectRequested);
    assert_eq!(s.action, MonitorAction::Disconnect);
    let s = m.step(MonitorEvent::Disconnected);
    assert_eq!(s.report, Some(ConnState::Idle));
    assert_eq!(s.action, MonitorAction::Sleep { ms: 1000 });
    m.step(MonitorEvent::WaitElapsed);
    m.step(MonitorEvent::PortsProbed { any_open: true });
    m.step(MonitorEvent::ConnectAttempted { connected: true });
    let s = m.step(MonitorEvent::PollElapsed { client_connected: false });
    assert_eq!(s.action, MonitorAction::Disconnect);
    assert_eq!(m.phase, MonitorPhase::Disconnecting);
}
