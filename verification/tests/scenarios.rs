use wwise_rank::config::{next_backoff, Config};
use wwise_rank::settings::{TopicSetting, UserSettings};
use wwise_rank::topics::{topics, ScoreConfig};

#[test]
fn config_load_from_env_and_defaults() {
    let c = Config::from_env_values(Some("123"), Some("2"), None, None, None, None, None);
    assert_eq!(c.tcp_probe_timeout_ms, 123);
    assert_eq!(c.connect_timeout_secs, 2);
}

#[test]
fn backoff_computation() {
    assert_eq!(next_backoff(1000, 8000), 2000);
    assert_eq!(next_backoff(5000, 8000), 8000);
    assert_eq!(next_backoff(9000, 8000), 8000);
}

#[test]
fn score_config_defaults_covers_all_topics() {
    let defaults = ScoreConfig::defaults();
    for topic in topics() {
        assert!(defaults.contains_key(topic), "missing default score for '{topic}'");
    }
}

#[test]
fn user_settings_default_covers_all_topics() {
    let s = UserSettings::default();
    for topic in topics() {
        assert!(
            s.topics.iter().any(|t| t.uri == topic),
            "missing default topic setting for '{topic}'"
        );
    }
}

#[test]
fn user_settings_load_or_default_merges_new_topics() {
    // A settings file that is missing some topics, as loaded.
    let partial = UserSettings {
        port_start: 9090,
        port_end: 9090,
        topics: vec![TopicSetting {
            uri: "ak.wwise.core.object.created".to_string(),
            score: 99,
            enabled: true,
        }],
    };
    let loaded = UserSettings::load_or_default_from(Some(partial));
    assert_eq!(loaded.port_start, 9090);
    // Custom score preserved
    let created = loaded.topics.iter().find(|t| t.uri == "ak.wwise.core.object.created").unwrap();
    assert_eq!(created.score, 99);
    // Missing topics filled in
    assert!(loaded.topics.iter().any(|t| t.uri == "ak.wwise.ui.selectionChanged"));
}
