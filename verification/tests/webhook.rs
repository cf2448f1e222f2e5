use strumbot::config::{
    match_roles, plan_roles, Config, EventName, GuildRole, RoleNameConfig, WebhookParams,
};

#[test]
fn webhook_test_parse_webhook_params() {
    let url = "https://discord.com/api/webhooks/983342910521090131/6iwWTd-VHL7yzlJ_W1SWagLBVtTbJK8NhlMFpnjkibU5UYqjC0KgfDrTPdxUC7fdSJlD";
    let params = WebhookParams::parse(url).unwrap();
    assert_eq!(params.id, 983342910521090131);
    assert_eq!(
        params.token,
        "6iwWTd-VHL7yzlJ_W1SWagLBVtTbJK8NhlMFpnjkibU5UYqjC0KgfDrTPdxUC7fdSJlD"
    );
}

#[test]
fn webhook_test_parse_webhook_params_invalid() {
    let url = "https://discord-errors.com/api/webhooks/983342910521090131/6iwWTd-VHL7yzlJ_W1SWagLBVtTbJK8NhlMFpnjkibU5UYqjC0KgfDrTPdxUC7fdSJlD";
    assert!(WebhookParams::parse(url).is_none());
}

#[test]
fn webhook_address_may_name_a_subdomain() {
    let hook = WebhookParams::parse("https://canary.discord.com/api/webhooks/42/tok_en-1").unwrap();
    assert_eq!(hook.id, 42);
    assert_eq!(hook.token, "tok_en-1");
    let hook = WebhookParams::parse("http://discord.com/api/webhooks/1/a").unwrap();
    assert_eq!(hook.id, 1);
    assert_eq!(hook.token, "a");
    // the host below its own name
    assert!(WebhookParams::parse("https://discord.discord.com/api/webhooks/1/a").is_some());
    // any one character stands between the two parts of the host
    assert!(WebhookParams::parse("https://discordxcom/api/webhooks/1/a").is_some());
    // the name above the host and the token are made of word characters
    let hook = WebhookParams::parse("https://c4nary_2.discord.com/api/webhooks/7/t\u{f6}k-\u{e9}n_9").unwrap();
    assert_eq!(hook.id, 7);
    assert_eq!(hook.token, "t\u{f6}k-\u{e9}n_9");
    assert!(WebhookParams::parse("https://\u{fc}ber.discord.com/api/webhooks/1/a").is_some());
}

#[test]
fn webhook_is_read_from_the_groups_of_its_address() {
    let groups = |id: Option<&str>, token: Option<&str>| {
        vec![Some("all".to_string()), id.map(|s| s.to_string()), token.map(|s| s.to_string())]
    };
    let hook = WebhookParams::from_groups(&groups(Some("42"), Some("tok"))).unwrap();
    assert_eq!(hook.id, 42);
    assert_eq!(hook.token, "tok");
    assert_eq!(WebhookParams::from_groups(&groups(Some("+42"), Some("tok"))).unwrap().id, 42);
    assert!(WebhookParams::from_groups(&groups(Some("0"), Some("tok"))).is_none());
    assert!(WebhookParams::from_groups(&groups(Some("\u{661}\u{662}"), Some("tok"))).is_none());
    assert!(WebhookParams::from_groups(&groups(Some("18446744073709551616"), Some("tok"))).is_none());
    assert!(WebhookParams::from_groups(&groups(None, Some("tok"))).is_none());
    assert!(WebhookParams::from_groups(&groups(Some("1"), None)).is_none());
    assert!(WebhookParams::from_groups(&vec![Some("all".to_string()), Some("1".to_string())]).is_none());
    assert!(WebhookParams::from_groups(&vec![]).is_none());
}

#[test]
fn webhook_address_is_refused_where_it_is_malformed() {
    for url in [
        "",
        "https://",
        "ftp://discord.com/api/webhooks/1/a",
        "https://a.b.discord.com/api/webhooks/1/a",
        "https://c-nary.discord.com/api/webhooks/1/a",
        "https://discord.com/api/webhooks/\u{661}\u{662}/a",
        "https://.discord.com/api/webhooks/1/a",
        "https://discord\ncom/api/webhooks/1/a",
        "https://discord.com/api/webhooks//a",
        "https://discord.com/api/webhooks/1/",
        "https://discord.com/api/webhooks/1",
        "https://discord.com/api/webhooks/x1/a",
        "https://discord.com/api/webhooks/1/a b",
        "https://discord.com/api/webhooks/1/a/",
        "https://discord.com/api/webhooks/1/a\n",
        " https://discord.com/api/webhooks/1/a",
        "https://discord.com/api/webhooks/0/a",
        "https://discord.com/api/webhooks/18446744073709551616/a",
        "https://discord.com/api/webhook/1/a",
    ] {
        assert!(WebhookParams::parse(url).is_none());
    }
    assert_eq!(
        WebhookParams::parse("https://discord.com/api/webhooks/18446744073709551615/a").unwrap().id,
        u64::MAX
    );
}

fn role(name: &str, id: &str) -> GuildRole {
    GuildRole { name: name.to_string(), id: id.to_string() }
}

fn names(live: &str, vod: &str, update: &str) -> RoleNameConfig {
    RoleNameConfig { live: live.to_string(), vod: vod.to_string(), update: update.to_string() }
}

#[test]
fn roles_are_matched_whatever_the_case() {
    let plan = plan_roles(
        &names("Live", "", "New Game"),
        &vec![role("admin", "1"), role("NEW GAME", "2"), role("live", "3"), role("new game", "4")],
    );
    assert_eq!(
        plan.found,
        vec![
            (EventName::Update, "2".to_string()),
            (EventName::Live, "3".to_string()),
            (EventName::Update, "4".to_string()),
        ]
    );
    assert!(plan.missing.is_empty());
}

#[test]
fn roles_that_the_server_lacks_are_to_be_created() {
    let plan = plan_roles(&names("Live", "Vods", ""), &vec![role("vods", "9")]);
    assert_eq!(plan.found, vec![(EventName::Vod, "9".to_string())]);
    assert_eq!(plan.missing, vec![(EventName::Live, "live".to_string())]);
    let plan = plan_roles(&names("a", "b", "c"), &vec![]);
    assert_eq!(
        plan.missing,
        vec![
            (EventName::Live, "a".to_string()),
            (EventName::Update, "c".to_string()),
            (EventName::Vod, "b".to_string()),
        ]
    );
    let plan = plan_roles(&names("", "", ""), &vec![role("", "1")]);
    assert_eq!(plan.found, vec![(EventName::Vod, "1".to_string())]);
    assert!(plan.missing.is_empty());
}

#[test]
fn a_role_shared_by_events_counts_for_the_last() {
    let plan = plan_roles(&names("Stream", "stream", "STREAM"), &vec![]);
    assert_eq!(plan.missing, vec![(EventName::Vod, "stream".to_string())]);
    let plan = plan_roles(&names("Stream", "x", "stream"), &vec![role("stream", "5")]);
    assert_eq!(plan.found, vec![(EventName::Update, "5".to_string())]);
    assert_eq!(plan.missing, vec![(EventName::Vod, "x".to_string())]);
}

#[test]
fn recorded_roles_replace_earlier_ones() {
    let mut config = Config::default();
    config.set_role("live", "1".to_string());
    config.set_role("vod", "2".to_string());
    config.set_role("live", "3".to_string());
    assert_eq!(
        config.role_map,
        vec![("live".to_string(), "3".to_string()), ("vod".to_string(), "2".to_string())]
    );
    assert_eq!(config.get_role("live"), Some("3".to_string()));
}

#[test]
fn roles_are_matched_by_the_keys_as_given() {
    let held = vec![("live".to_string(), "1".to_string()), ("Live".to_string(), "2".to_string())];
    let plan = match_roles("live", "", "clips", &held);
    assert_eq!(plan.found, vec![(EventName::Live, "1".to_string())]);
    assert_eq!(plan.missing, vec![(EventName::Vod, "clips".to_string())]);
}
