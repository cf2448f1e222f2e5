use strumbot::error::RequestError;
use strumbot::oauth::{
    full_url, get_url, Action, Attempt, ClientParams, End, Identity, QueryParams, Retry,
    TransportError,
};

fn status(code: u16) -> Attempt {
    Attempt::Response { status: code, retry_after: None }
}

fn limited(header: Option<&str>) -> Attempt {
    Attempt::Response { status: 429, retry_after: header.map(|h| h.to_string()) }
}

fn transport(connect: bool, timeout: bool, request: bool) -> Attempt {
    Attempt::Failed(TransportError { connect, timeout, request, description: "broken".to_string() })
}

#[test]
fn url_is_below_the_root() {
    assert_eq!(get_url("streams"), "https://api.twitch.tv/helix/streams");
    assert_eq!(get_url(""), "https://api.twitch.tv/helix/");
}

#[test]
fn builder_without_parameters_builds_empty() {
    assert!(matches!(QueryParams::builder().build(), QueryParams::Empty));
    match QueryParams::builder().param("id", "1".to_string()).param("id", "2".to_string()).build() {
        QueryParams::With(items) => {
            assert_eq!(items, vec![("id".to_string(), "1".to_string()), ("id".to_string(), "2".to_string())]);
        }
        QueryParams::Empty => panic!("two parameters were given"),
    }
}

#[test]
fn query_string_joins_parameters() {
    let none = QueryParams::builder().build();
    assert_eq!(full_url("https://x/y", &none), "https://x/y");
    assert_eq!(full_url("https://x/y", &QueryParams::With(vec![])), "https://x/y");
    let one = QueryParams::builder().param("id", "5".to_string()).build();
    assert_eq!(full_url("https://x/y", &one), "https://x/y?id=5");
    let three = QueryParams::builder()
        .param("type", "archive".to_string())
        .param("first", "5".to_string())
        .param("user_id", "a b".to_string())
        .build();
    assert_eq!(full_url("https://x/y", &three), "https://x/y?type=archive&first=5&user_id=a b");
}

#[test]
fn token_form_is_a_credentials_grant() {
    let params = ClientParams { client_id: "abc".to_string(), client_secret: "xyz".to_string() };
    assert_eq!(
        params.token_form(),
        vec![
            ("client_id".to_string(), "abc".to_string()),
            ("client_secret".to_string(), "xyz".to_string()),
            ("grant_type".to_string(), "client_credentials".to_string()),
        ]
    );
}

#[test]
fn identity_is_refreshed_ten_minutes_before_expiry() {
    let id = Identity::granted("tok".to_string(), 5011271, "bearer".to_string(), 1000);
    assert_eq!(id.access_token, "tok");
    assert_eq!(id.token_type, "bearer");
    assert_eq!(id.expires_at, 5012271);
    assert!(!id.needs_refresh(1000));
    assert!(!id.needs_refresh(5012271 - 600));
    assert!(id.needs_refresh(5012271 - 599));
    assert!(id.needs_refresh(6000000));
    let short = Identity::granted("tok".to_string(), 10, "bearer".to_string(), 0);
    assert!(short.needs_refresh(0));
    assert!(short.needs_refresh(u64::MAX - 600));
}

#[test]
fn five_server_errors_then_success() {
    let script = vec![status(500), status(500), status(500), status(500), status(500), status(200)];
    let trace = Retry::run(true, &script);
    assert_eq!(trace.sleeps, vec![1, 2, 4, 8, 16]);
    assert_eq!(trace.made, 6);
    assert_eq!(trace.end, End::Delivered);
}

#[test]
fn rate_limit_sleeps_as_told_without_doubling() {
    let script = vec![limited(Some("5")), status(200)];
    let trace = Retry::run(true, &script);
    assert_eq!(trace.sleeps, vec![5]);
    assert_eq!(trace.end, End::Delivered);

    let mut retry = Retry::new(true);
    assert_eq!(retry.step(&status(503)), Action::Sleep(1));
    assert_eq!(retry.backoff, 2);
    assert_eq!(retry.step(&limited(Some("5"))), Action::Sleep(5));
    assert_eq!(retry.backoff, 2);
    assert_eq!(retry.attempts, 2);
    assert_eq!(retry.step(&status(502)), Action::Sleep(2));
    assert_eq!(retry.backoff, 4);
}

#[test]
fn rate_limit_defaults_to_ten_seconds() {
    let mut retry = Retry::new(true);
    assert_eq!(retry.step(&limited(None)), Action::Sleep(10));
    assert_eq!(retry.step(&limited(Some("soon"))), Action::Sleep(10));
    assert_eq!(retry.step(&limited(Some(""))), Action::Sleep(10));
    assert_eq!(retry.step(&limited(Some("-3"))), Action::Sleep(10));
    assert_eq!(retry.step(&limited(Some("99999999999999999999"))), Action::Sleep(10));
    assert_eq!(retry.step(&limited(Some("+7"))), Action::Sleep(7));
    assert_eq!(retry.step(&limited(Some("0"))), Action::Sleep(0));
    assert_eq!(retry.backoff, 1);
}

#[test]
fn authorization_does_not_honour_rate_limits() {
    let mut retry = Retry::new(false);
    assert_eq!(retry.step(&limited(Some("5"))), Action::Fail(RequestError::Http(429)));
}

#[test]
fn other_statuses_fail_at_once() {
    for code in [400u16, 401, 404, 300, 199, 600] {
        let trace = Retry::run(true, &vec![status(code), status(200)]);
        assert_eq!(trace.sleeps, Vec::<u64>::new());
        assert_eq!(trace.made, 1);
        assert_eq!(trace.end, End::Failed(RequestError::Http(code)));
    }
    for code in [200u16, 204, 299] {
        assert_eq!(Retry::new(true).step(&status(code)), Action::Deliver);
    }
}

#[test]
fn transport_failures_are_retried_by_kind() {
    let mut retry = Retry::new(true);
    assert_eq!(retry.step(&transport(true, false, false)), Action::Sleep(1));
    assert_eq!(retry.step(&transport(false, true, false)), Action::Sleep(2));
    assert_eq!(retry.step(&transport(false, false, true)), Action::Sleep(4));
    assert_eq!(
        retry.step(&transport(false, false, false)),
        Action::Fail(RequestError::Unexpected("broken".to_string()))
    );
}

#[test]
fn budget_is_ten_attempts() {
    let script: Vec<Attempt> = (0..12).map(|_| status(500)).collect();
    let trace = Retry::run(true, &script);
    assert_eq!(trace.sleeps, vec![1, 2, 4, 8, 16, 16, 16, 16, 16, 16]);
    assert_eq!(trace.made, 10);
    assert_eq!(trace.end, End::Failed(RequestError::Timeout));

    let nine: Vec<Attempt> = (0..9).map(|_| status(500)).collect();
    let trace = Retry::run(true, &nine);
    assert_eq!(trace.made, 9);
    assert_eq!(trace.end, End::Pending);

    let ten: Vec<Attempt> = (0..10).map(|_| limited(Some("1"))).collect();
    let trace = Retry::run(true, &ten);
    assert_eq!(trace.sleeps, vec![1; 10]);
    assert_eq!(trace.end, End::Failed(RequestError::Timeout));

    let mut retry = Retry::new(true);
    for _ in 0..10 {
        assert!(!retry.exhausted());
        retry.step(&status(500));
    }
    assert!(retry.exhausted());
    assert_eq!(retry.step(&status(200)), Action::Fail(RequestError::Timeout));
    assert_eq!(retry.attempts, 10);
}

#[test]
fn requests_name_the_application_and_bear_the_token() {
    let params = ClientParams { client_id: "abc".to_string(), client_secret: "xyz".to_string() };
    let id = Identity::granted("tok".to_string(), 60, "bearer".to_string(), 0);
    assert_eq!(
        id.request_headers(&params),
        vec![
            ("Client-ID".to_string(), "abc".to_string()),
            ("Authorization".to_string(), "Bearer tok".to_string()),
        ]
    );
}
