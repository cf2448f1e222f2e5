use std::sync::Arc;

use strumbot::config::{
    CacheConfig, Config, DiscordConfig, EventName, RoleNameConfig, TwitchConfig, WebhookParams,
};
use strumbot::error::RequestError;
use strumbot::model::{Clip, Game, Stream, StreamType, Video, VideoDuration, VideoType};
use strumbot::util::Timestamp;
use strumbot::watcher::{
    split_duration, Lookups, Plan, StreamSegment, StreamUpdate, StreamWatcher, WatcherState,
};

fn config(events: Vec<EventName>, top_clips: u8) -> Arc<Config> {
    Arc::new(Config {
        twitch: TwitchConfig {
            client_id: "id".to_string(),
            client_secret: "secret".to_string(),
            user_login: vec!["alice".to_string()],
            top_clips,
            offline_grace_period: 2,
        },
        discord: DiscordConfig {
            token: "token".to_string(),
            guild_id: None,
            stream_notifications: WebhookParams::default(),
            logging: None,
            show_notify_hints: true,
            role_name: RoleNameConfig {
                live: "live".to_string(),
                vod: "".to_string(),
                update: "new game".to_string(),
            },
            enabled_events: events,
            enable_command: true,
            avatar_url: None,
        },
        cache: CacheConfig::default(),
        role_map: vec![("live".to_string(), "42".to_string())],
    })
}

fn all_events() -> Vec<EventName> {
    vec![EventName::Live, EventName::Update, EventName::Vod]
}

fn stream(id: &str, game_id: &str) -> Stream {
    Stream {
        id: id.to_string(),
        game_id: game_id.to_string(),
        title: "Hello there".to_string(),
        kind: StreamType::Live,
        language: "en".to_string(),
        thumbnail_url: "https://img/{width}x{height}.jpg".to_string(),
        user_id: "7".to_string(),
        user_login: "alice".to_string(),
        user_name: "Alice".to_string(),
        started_at: 1000,
    }
}

fn game(id: &str, name: &str) -> Game {
    Game { id: id.to_string(), name: name.to_string() }
}

fn video(id: &str, seconds: u32) -> Video {
    Video {
        id: id.to_string(),
        url: format!("https://www.twitch.tv/videos/{}", id),
        title: "The recording".to_string(),
        thumbnail_url: "https://img/vod.jpg".to_string(),
        view_count: 3,
        kind: VideoType::Archive,
        created_at: 1001,
        duration: VideoDuration(seconds),
    }
}

fn not_found<T>() -> Result<T, RequestError> {
    Err(RequestError::NotFound("Thing".to_string(), "query".to_string()))
}

fn found(game: Result<Game, RequestError>, video: Result<Video, RequestError>) -> Lookups {
    Lookups { game, video, first_vod: not_found(), vods: not_found(), clips: not_found() }
}

fn nothing() -> Lookups {
    found(not_found(), not_found())
}

fn live(s: Stream) -> StreamUpdate {
    StreamUpdate::Live(Box::new(s))
}

#[test]
fn split_duration_wraps_hours_at_sixty() {
    assert_eq!(split_duration(0), (0, 0, 0));
    assert_eq!(split_duration(3723), (1, 2, 3));
    assert_eq!(split_duration(59 * 3600 + 59 * 60 + 59), (59, 59, 59));
    assert_eq!(split_duration(60 * 3600 + 5), (0, 0, 5));
}

#[test]
fn vod_link_is_plain_without_a_recording() {
    let seg = StreamSegment { game: Game::empty(), position: 3723, video_id: String::new() };
    assert_eq!(seg.vod_link(), "`01:02:03`");
}

#[test]
fn vod_link_seeks_into_the_recording() {
    let seg = StreamSegment { game: Game::empty(), position: 3723, video_id: "555".to_string() };
    assert_eq!(seg.video_url(), "https://www.twitch.tv/videos/555");
    assert_eq!(
        seg.vod_link(),
        "[`01:02:03`](https://www.twitch.tv/videos/555?t=01h02m03s)"
    );
}

#[test]
fn segment_offset_is_the_elapsed_time() {
    let seg = StreamSegment::from(1000, 1600, game("1", "One"), Ok(video("77", 10)));
    assert_eq!(seg.position, 600);
    assert_eq!(seg.video_id, "77");
    let early = StreamSegment::from(1000, 900, game("1", "One"), not_found());
    assert_eq!(early.position, 0);
    assert_eq!(early.video_id, "");
}

#[test]
fn scenario_live_update_offline_vod() {
    let mut watcher = StreamWatcher::new("alice".to_string(), config(all_events(), 0), Timestamp(990));
    assert!(watcher.segments.is_empty());

    // went live
    let (state, note) = watcher
        .update(
            live(stream("999", "512710")),
            Timestamp(1000),
            found(Ok(game("512710", "Just Chatting")), not_found()),
        )
        .unwrap();
    assert_eq!(state, WatcherState::Updated);
    let note = note.unwrap();
    assert_eq!(note.event, EventName::Live);
    assert_eq!(note.content, "<@&42> Alice is live with **Just Chatting**!");
    assert_eq!(note.embed.author, "Hello there");
    assert_eq!(note.embed.title.as_deref(), Some("https://twitch.tv/Alice"));
    assert_eq!(note.embed.url.as_deref(), Some("https://twitch.tv/Alice"));
    assert_eq!(note.embed.color, 0x6441A4);
    assert_eq!(
        note.embed.footer.as_deref(),
        Some("Subscribe to notifications by typing: /notify role: live")
    );
    assert_eq!(note.embed.fields.len(), 2);
    assert_eq!(note.embed.fields[0].name, "Playing");
    assert_eq!(note.embed.fields[0].value, "Just Chatting");
    assert!(note.embed.fields[0].inline);
    assert_eq!(note.embed.fields[1].name, "Started");
    assert_eq!(note.embed.fields[1].value, "<t:1000:F>");
    assert_eq!(note.thumbnail_url.as_deref(), Some("https://img/{width}x{height}.jpg"));
    assert_eq!(watcher.segments.len(), 1);
    assert_eq!(watcher.segments[0].game.id, "512710");
    assert_eq!(watcher.segments[0].position, 0);
    assert_eq!(watcher.stream_id, "999");
    assert_eq!(watcher.user_id, "7");
    assert_eq!(watcher.start_timestamp, 1000);

    // same broadcast, new category
    let (state, note) = watcher
        .update(
            live(stream("999", "509658")),
            Timestamp(1600),
            found(Ok(game("509658", "Just Dancing")), not_found()),
        )
        .unwrap();
    assert_eq!(state, WatcherState::Updated);
    let note = note.unwrap();
    assert_eq!(note.event, EventName::Update);
    assert_eq!(note.content, " Alice switched game to **Just Dancing**!");
    assert_eq!(note.embed.description, None);
    assert_eq!(
        note.embed.footer.as_deref(),
        Some("Subscribe to notifications by typing: /notify role: new game")
    );
    assert_eq!(watcher.segments.len(), 2);
    assert_eq!(watcher.segments[1].game.id, "509658");
    assert_eq!(watcher.segments[1].position, 600);

    // first offline poll: the grace period begins
    let (state, note) = watcher.update(StreamUpdate::Offline, Timestamp(1700), nothing()).unwrap();
    assert_eq!(state, WatcherState::Updated);
    assert!(note.is_none());
    assert_eq!(watcher.offline_timestamp, Some(Timestamp(1820)));
    assert_eq!(watcher.segments.len(), 2);

    // still within the grace period: nothing changes, nothing is to be persisted
    let (state, note) = watcher.update(StreamUpdate::Offline, Timestamp(1819), nothing()).unwrap();
    assert_eq!(state, WatcherState::Unchanged);
    assert!(note.is_none());
    assert_eq!(watcher.offline_timestamp, Some(Timestamp(1820)));
    assert_eq!(watcher.segments.len(), 2);

    // the grace period is over
    let (state, note) = watcher.update(StreamUpdate::Offline, Timestamp(1820), nothing()).unwrap();
    assert_eq!(state, WatcherState::Ended);
    let note = note.unwrap();
    assert_eq!(note.event, EventName::Vod);
    assert_eq!(note.content, " VOD from alice [00h00m00s]");
    assert_eq!(note.embed.author, "<Video Removed>");
    assert_eq!(note.embed.title, None);
    assert_eq!(note.embed.footer, None);
    assert_eq!(note.embed.fields.len(), 1);
    assert_eq!(note.embed.fields[0].name, "Timestamps");
    assert_eq!(
        note.embed.fields[0].value,
        "`00:00:00` Just Chatting\n`00:10:00` Just Dancing\n"
    );
    assert_eq!(note.embed.fields[0].value.lines().count(), 2);
    assert!(note.thumbnail_url.is_none());
    assert!(watcher.segments.is_empty());
    assert_eq!(watcher.offline_timestamp, None);
}

#[test]
fn repeated_live_appends_nothing() {
    let mut watcher = StreamWatcher::new("alice".to_string(), config(all_events(), 0), Timestamp(1));
    watcher
        .update(live(stream("999", "512710")), Timestamp(1000), found(Ok(game("512710", "Just Chatting")), not_found()))
        .unwrap();
    for now in [1010u64, 1020, 1030] {
        // the lookups are not read: even a fatal one does not fail the event
        let (state, note) = watcher
            .update(
                live(stream("999", "512710")),
                Timestamp(now),
                found(Err(RequestError::Timeout), Err(RequestError::Timeout)),
            )
            .unwrap();
        assert_eq!(state, WatcherState::Unchanged);
        assert!(note.is_none());
        assert_eq!(watcher.segments.len(), 1);
    }
}

#[test]
fn live_within_grace_keeps_the_session() {
    let mut watcher = StreamWatcher::new("alice".to_string(), config(all_events(), 0), Timestamp(1));
    watcher
        .update(live(stream("999", "512710")), Timestamp(1000), found(Ok(game("512710", "Just Chatting")), not_found()))
        .unwrap();
    watcher.update(StreamUpdate::Offline, Timestamp(2000), nothing()).unwrap();
    assert_eq!(watcher.offline_timestamp, Some(Timestamp(2120)));
    let (state, note) = watcher.update(live(stream("999", "512710")), Timestamp(2119), nothing()).unwrap();
    assert_eq!(state, WatcherState::Unchanged);
    assert!(note.is_none());
    assert_eq!(watcher.offline_timestamp, None);
    assert_eq!(watcher.segments.len(), 1);
    // the next offline observation starts a new grace period
    let (state, _) = watcher.update(StreamUpdate::Offline, Timestamp(2200), nothing()).unwrap();
    assert_eq!(state, WatcherState::Updated);
    assert_eq!(watcher.offline_timestamp, Some(Timestamp(2320)));
    let (state, _) = watcher.update(StreamUpdate::Offline, Timestamp(2320), nothing()).unwrap();
    assert_eq!(state, WatcherState::Ended);
    assert!(watcher.segments.is_empty());
}

#[test]
fn offline_while_idle_changes_nothing() {
    let mut watcher = StreamWatcher::new("alice".to_string(), config(all_events(), 0), Timestamp(1));
    let (state, note) = watcher.update(StreamUpdate::Offline, Timestamp(5), nothing()).unwrap();
    assert_eq!(state, WatcherState::Unchanged);
    assert!(note.is_none());
    assert!(watcher.segments.is_empty());
    assert_eq!(watcher.offline_timestamp, None);
}

#[test]
fn missing_category_falls_back_to_the_sentinel() {
    let mut watcher = StreamWatcher::new("alice".to_string(), config(all_events(), 0), Timestamp(1));
    let (_, note) = watcher
        .update(live(stream("999", "1")), Timestamp(1000), found(not_found(), not_found()))
        .unwrap();
    let note = note.unwrap();
    assert_eq!(note.content, "<@&42> Alice is live!");
    assert_eq!(note.embed.fields.len(), 1);
    assert_eq!(note.embed.fields[0].name, "Started");
    assert_eq!(watcher.segments[0].game.id, "");
    assert_eq!(watcher.segments[0].game.name, "No Category");

    let mut other = StreamWatcher::new("alice".to_string(), config(all_events(), 0), Timestamp(1));
    let (_, note) = other
        .update(
            live(stream("999", "1")),
            Timestamp(1000),
            found(Err(RequestError::Deserialize("bad".to_string())), not_found()),
        )
        .unwrap();
    assert_eq!(note.unwrap().content, "<@&42> Alice is live!");
}

#[test]
fn fatal_lookup_fails_the_event_and_keeps_the_state() {
    let mut watcher = StreamWatcher::new("alice".to_string(), config(all_events(), 0), Timestamp(1));
    let out = watcher.update(
        live(stream("999", "1")),
        Timestamp(1000),
        found(Err(RequestError::Timeout), not_found()),
    );
    assert!(matches!(out, Err(RequestError::Timeout)));
    assert!(watcher.segments.is_empty());
    assert_eq!(watcher.stream_id, "");
    assert_eq!(watcher.start_timestamp, 1);

    let out = watcher.update(
        live(stream("999", "1")),
        Timestamp(1000),
        found(Ok(game("1", "One")), Err(RequestError::Http(401))),
    );
    assert!(matches!(out, Err(RequestError::Http(401))));
    assert!(watcher.segments.is_empty());

    watcher
        .update(live(stream("999", "1")), Timestamp(1000), found(Ok(game("1", "One")), not_found()))
        .unwrap();
    watcher.update(StreamUpdate::Offline, Timestamp(1100), nothing()).unwrap();
    let out = watcher.update(
        live(stream("999", "2")),
        Timestamp(1200),
        found(Err(RequestError::Unexpected("boom".to_string())), not_found()),
    );
    assert!(matches!(out, Err(RequestError::Unexpected(_))));
    assert_eq!(watcher.segments.len(), 1);
    assert_eq!(watcher.offline_timestamp, Some(Timestamp(1220)));
}

#[test]
fn new_broadcast_starts_at_zero_and_is_not_announced() {
    let mut watcher = StreamWatcher::new("alice".to_string(), config(all_events(), 0), Timestamp(1));
    watcher
        .update(live(stream("999", "1")), Timestamp(1000), found(Ok(game("1", "One")), Ok(video("v1", 5))))
        .unwrap();
    assert_eq!(watcher.segments[0].video_id, "v1");
    let (state, note) = watcher
        .update(live(stream("1000", "1")), Timestamp(1500), found(Ok(game("1", "One")), Ok(video("v2", 5))))
        .unwrap();
    assert_eq!(state, WatcherState::Updated);
    assert!(note.is_none());
    assert_eq!(watcher.segments.len(), 2);
    assert_eq!(watcher.segments[1].position, 0);
    assert_eq!(watcher.segments[1].video_id, "v2");
    assert_eq!(watcher.stream_id, "1000");
}

#[test]
fn update_names_where_to_start_watching() {
    let mut watcher = StreamWatcher::new("alice".to_string(), config(all_events(), 0), Timestamp(1));
    watcher
        .update(live(stream("999", "1")), Timestamp(1000), found(Ok(game("1", "One")), Ok(video("v1", 5))))
        .unwrap();
    let (_, note) = watcher
        .update(live(stream("999", "2")), Timestamp(1000 + 3723), found(Ok(game("2", "Two")), Ok(video("v1", 5))))
        .unwrap();
    let note = note.unwrap();
    assert_eq!(
        note.embed.description.as_deref(),
        Some("Start watching at [`01:02:03`](https://www.twitch.tv/videos/v1?t=01h02m03s)")
    );
    assert_eq!(note.embed.fields[0].value, "Two");
}

#[test]
fn suppressed_events_are_not_sent() {
    let mut watcher = StreamWatcher::new("alice".to_string(), config(vec![], 0), Timestamp(1));
    let (state, note) = watcher
        .update(live(stream("999", "1")), Timestamp(1000), found(Ok(game("1", "One")), not_found()))
        .unwrap();
    assert_eq!(state, WatcherState::Updated);
    assert!(note.is_none());
    let (state, note) = watcher
        .update(live(stream("999", "2")), Timestamp(1100), found(Ok(game("2", "Two")), not_found()))
        .unwrap();
    assert_eq!(state, WatcherState::Updated);
    assert!(note.is_none());
    assert_eq!(watcher.segments.len(), 2);
    watcher.update(StreamUpdate::Offline, Timestamp(1200), nothing()).unwrap();
    // with closing notifications off the lookups are not read
    let lookups = Lookups {
        game: not_found(),
        video: not_found(),
        first_vod: Err(RequestError::Timeout),
        vods: Err(RequestError::Timeout),
        clips: Err(RequestError::Timeout),
    };
    let (state, note) = watcher.update(StreamUpdate::Offline, Timestamp(1320), lookups).unwrap();
    assert_eq!(state, WatcherState::Ended);
    assert!(note.is_none());
    assert!(watcher.segments.is_empty());
}

fn clip(title: &str, views: i32) -> Clip {
    Clip {
        id: "c".to_string(),
        video_id: "v".to_string(),
        url: "https://clips/c".to_string(),
        title: title.to_string(),
        thumbnail_url: String::new(),
        view_count: views,
        created_at: 1500,
    }
}

#[test]
fn closing_notification_presents_the_recording_and_clips() {
    let mut watcher = StreamWatcher::new("alice".to_string(), config(all_events(), 9), Timestamp(1));
    watcher
        .update(live(stream("999", "1")), Timestamp(1000), found(Ok(game("1", "One")), Ok(video("v1", 5))))
        .unwrap();
    watcher.update(StreamUpdate::Offline, Timestamp(2000), nothing()).unwrap();
    match watcher.plan(&StreamUpdate::Offline, Timestamp(2120)) {
        Plan::Closing(plan) => {
            assert_eq!(plan.first_video.as_deref(), Some("v1"));
            assert_eq!(plan.videos, vec!["v1".to_string()]);
            assert_eq!(plan.clips, 5);
            assert_eq!(plan.user_id, "7");
            assert_eq!(plan.since, 1000);
        }
        _ => panic!("a closing plan is due"),
    }
    let lookups = Lookups {
        game: not_found(),
        video: not_found(),
        first_vod: Ok(video("v1", 3723)),
        vods: Ok(vec![video("v1", 3723), video("v2", 7)]),
        clips: Ok(vec![
            clip("short [one]", 12),
            clip("a title of exactly 25 by.", 3),
            clip("brief", -1),
        ]),
    };
    let (state, note) = watcher.update(StreamUpdate::Offline, Timestamp(2120), lookups).unwrap();
    assert_eq!(state, WatcherState::Ended);
    let note = note.unwrap();
    assert_eq!(note.content, " VOD from alice [01h02m10s]");
    assert_eq!(note.embed.author, "The recording");
    assert_eq!(note.embed.url.as_deref(), Some("https://www.twitch.tv/videos/v1"));
    assert_eq!(note.embed.title.as_deref(), Some("https://www.twitch.tv/videos/v1"));
    assert_eq!(note.thumbnail_url.as_deref(), Some("https://img/vod.jpg"));
    assert_eq!(note.embed.fields.len(), 2);
    assert_eq!(
        note.embed.fields[0].value,
        "[`00:00:00`](https://www.twitch.tv/videos/v1?t=00h00m00s) One\n"
    );
    assert_eq!(note.embed.fields[1].name, "Top Clips");
    assert!(!note.embed.fields[1].inline);
    assert_eq!(
        note.embed.fields[1].value,
        "`1.` [**short (one) \u{1F855}**](https://clips/c) \u{2022} **12**\u{00A0}views\n\
         `2.` [**a title of exactly 25 by.... \u{1F855}**](https://clips/c) \u{2022} **3**\u{00A0}views\n\
         `3.` [**brief \u{1F855}**](https://clips/c) \u{2022} **-1**\u{00A0}views\n"
    );
}

#[test]
fn failed_clip_lookup_fails_the_closing_and_keeps_the_session() {
    let mut watcher = StreamWatcher::new("alice".to_string(), config(all_events(), 3), Timestamp(1));
    watcher
        .update(live(stream("999", "1")), Timestamp(1000), found(Ok(game("1", "One")), not_found()))
        .unwrap();
    watcher.update(StreamUpdate::Offline, Timestamp(2000), nothing()).unwrap();
    let out = watcher.update(StreamUpdate::Offline, Timestamp(2120), nothing());
    assert!(matches!(out, Err(RequestError::NotFound(_, _))));
    assert_eq!(watcher.segments.len(), 1);
    assert_eq!(watcher.offline_timestamp, Some(Timestamp(2120)));
    // the next poll closes the session
    let lookups = Lookups {
        game: not_found(),
        video: not_found(),
        first_vod: not_found(),
        vods: Err(RequestError::Deserialize("x".to_string())),
        clips: Ok(vec![]),
    };
    let (state, note) = watcher.update(StreamUpdate::Offline, Timestamp(2130), lookups).unwrap();
    assert_eq!(state, WatcherState::Ended);
    let note = note.unwrap();
    assert_eq!(note.embed.fields.len(), 1);
    assert_eq!(note.content, " VOD from alice [00h00m00s]");
}

#[test]
fn plan_tells_which_lookups_are_due() {
    let mut watcher = StreamWatcher::new("alice".to_string(), config(all_events(), 0), Timestamp(1));
    assert!(matches!(watcher.plan(&live(stream("999", "1")), Timestamp(1000)), Plan::Segment));
    assert!(matches!(watcher.plan(&StreamUpdate::Offline, Timestamp(1000)), Plan::Nothing));
    watcher
        .update(live(stream("999", "1")), Timestamp(1000), found(Ok(game("1", "One")), not_found()))
        .unwrap();
    assert!(matches!(watcher.plan(&live(stream("999", "1")), Timestamp(1001)), Plan::Nothing));
    assert!(matches!(watcher.plan(&live(stream("999", "2")), Timestamp(1001)), Plan::Segment));
    assert!(matches!(watcher.plan(&live(stream("998", "1")), Timestamp(1001)), Plan::Segment));
    assert!(matches!(watcher.plan(&StreamUpdate::Offline, Timestamp(1001)), Plan::Nothing));
    watcher.update(StreamUpdate::Offline, Timestamp(1001), nothing()).unwrap();
    assert!(matches!(watcher.plan(&StreamUpdate::Offline, Timestamp(1120)), Plan::Nothing));
    match watcher.plan(&StreamUpdate::Offline, Timestamp(1121)) {
        Plan::Closing(plan) => {
            assert_eq!(plan.first_video, None);
            assert_eq!(plan.videos, vec![String::new()]);
            assert_eq!(plan.clips, 0);
        }
        _ => panic!("a closing plan is due"),
    }
}

#[test]
fn record_round_trip_keeps_the_state() {
    let mut watcher = StreamWatcher::new("alice".to_string(), config(all_events(), 0), Timestamp(1));
    watcher
        .update(live(stream("999", "1")), Timestamp(1000), found(Ok(game("1", "One")), Ok(video("v1", 5))))
        .unwrap();
    watcher
        .update(live(stream("999", "2")), Timestamp(1300), found(Ok(game("2", "Two")), Ok(video("v1", 5))))
        .unwrap();
    watcher.update(StreamUpdate::Offline, Timestamp(1400), nothing()).unwrap();
    let record = watcher.to_record();
    let restored = StreamWatcher::from_record(record, config(vec![], 1));
    assert_eq!(restored.user_name, watcher.user_name);
    assert_eq!(restored.user_id, watcher.user_id);
    assert_eq!(restored.stream_id, "999");
    assert_eq!(restored.start_timestamp, 1000);
    assert_eq!(restored.offline_timestamp, Some(Timestamp(1520)));
    assert_eq!(restored.segments.len(), 2);
    for i in 0..2 {
        assert_eq!(restored.segments[i].game.id, watcher.segments[i].game.id);
        assert_eq!(restored.segments[i].game.name, watcher.segments[i].game.name);
        assert_eq!(restored.segments[i].position, watcher.segments[i].position);
        assert_eq!(restored.segments[i].video_id, watcher.segments[i].video_id);
    }
    assert_eq!(restored.config.twitch.top_clips, 1);
}

#[test]
fn waiting_for_the_deadline_changes_nothing() {
    let mut watcher = StreamWatcher::new("alice".to_string(), config(all_events(), 3), Timestamp(1));
    watcher
        .update(live(stream("999", "1")), Timestamp(1000), found(Ok(game("1", "One")), not_found()))
        .unwrap();
    let (state, _) = watcher.update(StreamUpdate::Offline, Timestamp(2000), nothing()).unwrap();
    assert_eq!(state, WatcherState::Updated);
    for now in [2000u64, 2001, 2060, 2119] {
        // the lookups are not read, and the deadline is not pushed back
        let lookups = Lookups {
            game: Err(RequestError::Timeout),
            video: Err(RequestError::Timeout),
            first_vod: Err(RequestError::Timeout),
            vods: Err(RequestError::Timeout),
            clips: Err(RequestError::Timeout),
        };
        assert!(matches!(watcher.plan(&StreamUpdate::Offline, Timestamp(now)), Plan::Nothing));
        let (state, note) = watcher.update(StreamUpdate::Offline, Timestamp(now), lookups).unwrap();
        assert_eq!(state, WatcherState::Unchanged);
        assert!(note.is_none());
        assert_eq!(watcher.offline_timestamp, Some(Timestamp(2120)));
        assert_eq!(watcher.segments.len(), 1);
    }
    // an instant near the end of time is no obstacle while the deadline is awaited
    let far = StreamWatcher::from_record(watcher.to_record(), config(vec![], 0));
    let mut far = far;
    let (state, _) = far.update(StreamUpdate::Offline, Timestamp(u64::MAX), nothing()).unwrap();
    assert_eq!(state, WatcherState::Ended);
}
