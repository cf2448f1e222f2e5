use strumbot::client::{
    clips_request, dedup, game_request, limit_clips, pick_game, pick_stream_video, pick_video,
    stamp_url, stream_video_request, streams_request, thumbnail_result, thumbnail_url,
    video_request, videos_request, Request,
};
use strumbot::error::RequestError;
use strumbot::model::{Clip, Game, Video, VideoDuration, VideoType};
use strumbot::oauth::QueryParams;

fn params(request: &Request) -> Vec<(String, String)> {
    match &request.params {
        QueryParams::With(items) => items.clone(),
        QueryParams::Empty => vec![],
    }
}

fn pair(k: &str, v: &str) -> (String, String) {
    (k.to_string(), v.to_string())
}

fn video(id: &str, kind: VideoType, created_at: u64) -> Video {
    Video {
        id: id.to_string(),
        url: String::new(),
        title: String::new(),
        thumbnail_url: String::new(),
        view_count: 0,
        kind,
        created_at,
        duration: VideoDuration(0),
    }
}

#[test]
fn streams_are_asked_for_in_one_batch() {
    let request = streams_request(&vec!["Elajjaz".to_string(), "distortion2".to_string()]);
    assert_eq!(request.endpoint, "streams");
    assert_eq!(params(&request), vec![pair("user_login", "Elajjaz"), pair("user_login", "distortion2")]);
    let none = streams_request(&vec![]);
    assert!(matches!(none.params, QueryParams::Empty));
}

#[test]
fn single_lookups_ask_by_id() {
    let request = game_request("512710");
    assert_eq!(request.endpoint, "games");
    assert_eq!(params(&request), vec![pair("id", "512710")]);
    let request = video_request("77");
    assert_eq!(request.endpoint, "videos");
    assert_eq!(params(&request), vec![pair("id", "77")]);
    let request = stream_video_request("7");
    assert_eq!(request.endpoint, "videos");
    assert_eq!(params(&request), vec![pair("type", "archive"), pair("first", "5"), pair("user_id", "7")]);
}

#[test]
fn recordings_are_asked_for_without_repeats() {
    let ids = vec!["a", "a", "b", "a", "", "", "c", "c", "c"];
    let ids: Vec<String> = ids.into_iter().map(|s| s.to_string()).collect();
    assert_eq!(dedup(ids.clone()), vec!["a", "b", "a", "", "c"]);
    assert_eq!(dedup(vec![]), Vec::<String>::new());
    let request = videos_request(ids);
    assert_eq!(request.endpoint, "videos");
    assert_eq!(
        params(&request),
        vec![pair("id", "a"), pair("id", "b"), pair("id", "a"), pair("id", ""), pair("id", "c")]
    );
}

#[test]
fn clips_are_asked_for_by_the_largest_page() {
    let request = clips_request("7", "2022-06-01T12:00:00Z");
    assert_eq!(request.endpoint, "clips");
    assert_eq!(
        params(&request),
        vec![pair("first", "100"), pair("broadcaster_id", "7"), pair("started_at", "2022-06-01T12:00:00Z")]
    );
}

#[test]
fn clips_are_limited_after_the_answer() {
    let clip = |id: &str| Clip {
        id: id.to_string(),
        video_id: String::new(),
        url: String::new(),
        title: String::new(),
        thumbnail_url: String::new(),
        view_count: 0,
        created_at: 0,
    };
    let all = vec![clip("a"), clip("b"), clip("c")];
    let ids = |v: Vec<Clip>| v.into_iter().map(|c| c.id).collect::<Vec<_>>();
    assert_eq!(ids(limit_clips(all.clone(), 2)), vec!["a", "b"]);
    assert_eq!(ids(limit_clips(all.clone(), 3)), vec!["a", "b", "c"]);
    assert_eq!(ids(limit_clips(all.clone(), 5)), vec!["a", "b", "c"]);
    assert_eq!(ids(limit_clips(all, 0)), Vec::<String>::new());
}

#[test]
fn picks_take_the_last_of_the_list() {
    let games = vec![
        Game { id: "1".to_string(), name: "One".to_string() },
        Game { id: "2".to_string(), name: "Two".to_string() },
    ];
    assert_eq!(pick_game(games, "2").unwrap().name, "Two");
    assert_eq!(
        pick_game(vec![], "2").unwrap_err(),
        RequestError::NotFound("Game".to_string(), "2".to_string())
    );
    let videos = vec![video("a", VideoType::Upload, 1), video("b", VideoType::Archive, 2)];
    assert_eq!(pick_video(videos, "b").unwrap().id, "b");
    assert_eq!(
        pick_video(vec![], "b").unwrap_err(),
        RequestError::NotFound("Video".to_string(), "b".to_string())
    );
}

#[test]
fn session_recording_is_the_first_archive_since_the_start() {
    let videos = vec![
        video("upload", VideoType::Upload, 2000),
        video("old", VideoType::Archive, 999),
        video("highlight", VideoType::Highlight, 2000),
        video("at-start", VideoType::Archive, 1000),
        video("later", VideoType::Archive, 3000),
    ];
    assert_eq!(pick_stream_video(videos.clone(), 1000, "7").unwrap().id, "at-start");
    assert_eq!(pick_stream_video(videos.clone(), 1001, "7").unwrap().id, "later");
    assert_eq!(pick_stream_video(videos.clone(), 0, "7").unwrap().id, "old");
    assert_eq!(
        pick_stream_video(videos, 3001, "7").unwrap_err(),
        RequestError::NotFound("Video".to_string(), "7".to_string())
    );
    assert!(pick_stream_video(vec![], 0, "7").is_err());
}

#[test]
fn thumbnail_address_is_sized_and_stamped() {
    assert_eq!(
        thumbnail_url("https://img/live-{width}x{height}.jpg", 1654000000),
        "https://img/live-1920x1080.jpg?t=1654000000"
    );
    assert_eq!(
        thumbnail_url("https://img/vod-%{width}x%{height}.jpg", 7),
        "https://img/vod-1920x1080.jpg?t=7"
    );
    // only the first placeholder of each kind is replaced
    assert_eq!(
        thumbnail_url("{width}{width}{height}{height}", 0),
        "1920{width}1080{height}?t=0"
    );
    assert_eq!(thumbnail_url("plain", 12), "plain?t=12");
    assert_eq!(stamp_url("x".to_string(), 0), "x?t=0");
}

#[test]
fn thumbnail_fetch_is_classified_by_status() {
    assert_eq!(thumbnail_result(200, vec![1, 2, 3], "u"), Ok(vec![1, 2, 3]));
    assert_eq!(thumbnail_result(204, vec![], "u"), Ok(vec![]));
    assert_eq!(
        thumbnail_result(404, vec![9], "u"),
        Err(RequestError::NotFound("Thumbnail".to_string(), "u".to_string()))
    );
    assert_eq!(thumbnail_result(500, vec![9], "u"), Err(RequestError::Http(500)));
    assert_eq!(thumbnail_result(429, vec![9], "u"), Err(RequestError::Http(429)));
    assert_eq!(thumbnail_result(302, vec![9], "u"), Err(RequestError::Http(302)));
}
