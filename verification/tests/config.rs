use strumbot::config::{
    default_grace_period, default_top_clips, default_true, CacheConfig, Config, EventName,
    RoleNameConfig, WebhookParams,
};
use strumbot::database::{DatabaseError, FileDatabase};
use strumbot::error::{
    AuthorizationError, HttpError, InitError, RequestError, RequestTimeoutError, TwitchError,
};
use strumbot::text::{decimal_string, read_decimal};

#[test]
fn defaults_are_as_documented() {
    assert_eq!(default_top_clips(), 0);
    assert_eq!(default_grace_period(), 2);
    assert!(default_true());
    assert!(CacheConfig::default().enabled);
    let hook = WebhookParams::default();
    assert_eq!(hook.id, 1);
    assert_eq!(hook.token, "");
}

#[test]
fn role_names_leave_out_the_empty_ones() {
    let names = RoleNameConfig {
        live: "live".to_string(),
        vod: "".to_string(),
        update: "new game".to_string(),
    };
    assert_eq!(names.values(), vec!["live", "new game"]);
    assert_eq!(RoleNameConfig::default().values(), Vec::<&String>::new());
    let all = RoleNameConfig { live: "a".to_string(), vod: "b".to_string(), update: "c".to_string() };
    assert_eq!(all.values(), vec!["a", "b", "c"]);
}

#[test]
fn roles_are_looked_up_by_event_name() {
    let mut config = Config::default();
    assert_eq!(config.get_role("live"), None);
    config.role_map.push(("live".to_string(), "1".to_string()));
    config.role_map.push(("vod".to_string(), "2".to_string()));
    config.role_map.push(("live".to_string(), "3".to_string()));
    assert_eq!(config.get_role("live"), Some("1".to_string()));
    assert_eq!(config.get_role("vod"), Some("2".to_string()));
    assert_eq!(config.get_role("update"), None);
    assert_eq!(config.get_role("Live"), None);
    assert_eq!(EventName::Live.key(), "live");
    assert_eq!(EventName::Vod.key(), "vod");
    assert_eq!(EventName::Update.key(), "update");
}

#[test]
fn events_are_enabled_by_listing_them() {
    let mut config = Config::default();
    assert!(!config.is_enabled(EventName::Live));
    config.discord.enabled_events = vec![EventName::Vod, EventName::Live];
    assert!(config.is_enabled(EventName::Live));
    assert!(config.is_enabled(EventName::Vod));
    assert!(!config.is_enabled(EventName::Update));
}

#[test]
fn errors_describe_themselves() {
    assert_eq!(RequestError::Http(404).message(), "HTTP 404");
    assert_eq!(RequestError::Timeout.message(), "Timeout error");
    assert_eq!(RequestError::Unexpected("x".to_string()).message(), "Unexpected error: x");
    assert_eq!(RequestError::Deserialize("y".to_string()).message(), "Deserialize error: y");
    assert_eq!(
        RequestError::NotFound("Game".to_string(), "5".to_string()).message(),
        "Game not found for query 5"
    );
    assert_eq!(
        TwitchError::NotFound("Video".to_string(), "9".to_string()).message(),
        "Video not found for query 9"
    );
    let http = HttpError::new(500, "oops".to_string());
    assert_eq!(http.status, 500);
    assert_eq!(http.body, "oops");
    assert_eq!(http.message(), "HTTP error 500: oops");
    assert_eq!(RequestTimeoutError.message(), "Request timeout after 3 tries");
    assert_eq!(AuthorizationError.message(), "Authorization error");
    assert_eq!(InitError::NoGuilds.message(), "No guilds found");
    assert_eq!(InitError::TooManyGuilds.message(), "Too many guilds found");
}

#[test]
fn data_gaps_are_told_from_failures() {
    assert!(RequestError::NotFound("a".to_string(), "b".to_string()).is_data_gap());
    assert!(RequestError::Deserialize("a".to_string()).is_data_gap());
    assert!(!RequestError::Timeout.is_data_gap());
    assert!(!RequestError::Http(500).is_data_gap());
    assert!(!RequestError::Unexpected("a".to_string()).is_data_gap());
    assert_eq!(RequestError::from_status(418), RequestError::Http(418));
    assert_eq!(RequestError::Http(418).duplicate(), RequestError::Http(418));
}

#[test]
fn documents_are_saved_through_a_sibling_file() {
    let db = FileDatabase::new(".cache".to_string());
    assert_eq!(db.path("alice"), ".cache/alice.json");
    assert_eq!(db.part_path("alice"), ".cache/alice-part.json");
    let plan = db.save("alice");
    assert_eq!(plan.write_to, ".cache/alice-part.json");
    assert_eq!(plan.rename_to, ".cache/alice.json");
    assert_ne!(plan.write_to, plan.rename_to);
    let empty = FileDatabase::new(String::new()).save("");
    assert_eq!(empty.write_to, "/-part.json");
    assert_eq!(empty.rename_to, "/.json");
}

#[test]
fn store_failures_describe_themselves() {
    let missing = DatabaseError::Io { not_found: true, message: "no such file".to_string() };
    assert!(missing.is_not_found());
    assert_eq!(missing.message(), "IO error: no such file");
    let denied = DatabaseError::Io { not_found: false, message: "denied".to_string() };
    assert!(!denied.is_not_found());
    let bad = DatabaseError::Serde("eof".to_string());
    assert!(!bad.is_not_found());
    assert_eq!(bad.message(), "Serde error: eof");
}

#[test]
fn numbers_are_written_and_read_in_decimal() {
    assert_eq!(decimal_string(0), "0");
    assert_eq!(decimal_string(10), "10");
    assert_eq!(decimal_string(u64::MAX), "18446744073709551615");
    assert_eq!(read_decimal("0", u64::MAX), Some(0));
    assert_eq!(read_decimal("007", u64::MAX), Some(7));
    assert_eq!(read_decimal("+5", u64::MAX), Some(5));
    assert_eq!(read_decimal("+", u64::MAX), None);
    assert_eq!(read_decimal("", u64::MAX), None);
    assert_eq!(read_decimal("5 ", u64::MAX), None);
    assert_eq!(read_decimal("++5", u64::MAX), None);
    assert_eq!(read_decimal("18446744073709551615", u64::MAX), Some(u64::MAX));
    assert_eq!(read_decimal("18446744073709551616", u64::MAX), None);
    assert_eq!(read_decimal("256", 255), None);
    assert_eq!(read_decimal("255", 255), Some(255));
    assert_eq!(read_decimal("9", 5), None);
}
