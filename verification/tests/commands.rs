use strumbot::commands::{eq_ignore_ascii_case, Gateway, RoleChange};
use strumbot::config::{GuildRole, RoleNameConfig};

fn role(name: &str, id: &str) -> GuildRole {
    GuildRole { name: name.to_string(), id: id.to_string() }
}

fn names() -> RoleNameConfig {
    RoleNameConfig { live: "live".to_string(), vod: "".to_string(), update: "New Game".to_string() }
}

fn pair(a: &str, b: &str) -> (String, String) {
    (a.to_string(), b.to_string())
}

#[test]
fn names_are_compared_without_the_case_of_ascii_letters() {
    assert!(eq_ignore_ascii_case("Live", "lIVE"));
    assert!(eq_ignore_ascii_case("", ""));
    assert!(eq_ignore_ascii_case("a-1_Z", "A-1_z"));
    assert!(!eq_ignore_ascii_case("live", "lives"));
    assert!(!eq_ignore_ascii_case("live", "love"));
    assert!(!eq_ignore_ascii_case("\u{c4}", "\u{e4}"));
    assert!(!eq_ignore_ascii_case("@", "`"));
    assert!(!eq_ignore_ascii_case("[", "{"));
}

#[test]
fn roles_named_in_the_settings_are_known_by_their_own_names() {
    let mut gateway = Gateway::new();
    assert!(!gateway.init_roles(&names(), &vec![role("admin", "1"), role("", "2")]));
    assert_eq!(gateway.role_id("admin"), None);
    assert_eq!(gateway.role_id(""), None);
    assert!(gateway.init_roles(
        &names(),
        &vec![role("LIVE", "3"), role("admin", "1"), role("new game", "4"), role("LIVE", "5")]
    ));
    assert_eq!(gateway.role_id("LIVE"), Some("5".to_string()));
    assert_eq!(gateway.role_id("new game"), Some("4".to_string()));
    assert_eq!(gateway.role_id("live"), None);
    assert_eq!(gateway.role_id("admin"), None);
    // a server without such roles leaves the known ones
    assert!(gateway.init_roles(&names(), &vec![]));
}

#[test]
fn choices_are_the_named_roles() {
    assert_eq!(Gateway::choices(&names()), vec![pair("live", "live"), pair("New Game", "New Game")]);
    assert_eq!(Gateway::choices(&RoleNameConfig::default()), vec![]);
}

#[test]
fn only_the_notify_command_is_accepted() {
    assert!(Gateway::accepts("notify"));
    assert!(!Gateway::accepts("Notify"));
    assert!(!Gateway::accepts(""));
}

#[test]
fn the_command_toggles_the_role() {
    let mut gateway = Gateway::new();
    gateway.init_roles(&names(), &vec![role("live", "3"), role("new game", "4")]);
    let has = vec!["9".to_string(), "3".to_string()];
    assert_eq!(gateway.on_interaction(Some("live"), true, &has), Some(RoleChange::Remove("3".to_string())));
    assert_eq!(gateway.on_interaction(Some("new game"), true, &has), Some(RoleChange::Add("4".to_string())));
    assert_eq!(gateway.on_interaction(Some("live"), true, &vec![]), Some(RoleChange::Add("3".to_string())));
    assert_eq!(gateway.on_interaction(Some("live"), false, &has), None);
    assert_eq!(gateway.on_interaction(Some("Live"), true, &has), None);
    assert_eq!(gateway.on_interaction(Some("vod"), true, &has), None);
    assert_eq!(gateway.on_interaction(None, true, &has), None);
}
