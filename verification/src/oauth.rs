//! Requests to the upstream API: their addresses and query strings, the
//! credentials grant, and the policy by which a request is retried.
//!
//! Sending is not done here. The sender reports what each attempt met as an
//! [`Attempt`], and [`Retry`] answers with what to do next.

use vstd::prelude::*;
use crate::error::{RequestError, RequestErrorView};
use crate::text::opt_text;
use crate::text::{parse_decimal, push_char, push_text, read_decimal};

verus! {

/// The root of every API address.
pub const BASE_URL: &'static str = "https://api.twitch.tv/helix";

/// Where credentials are exchanged for a token.
pub const TOKEN_URL: &'static str = "https://id.twitch.tv/oauth2/token";

/// The address of `endpoint`.
pub open spec fn url_text(endpoint: Seq<char>) -> Seq<char> {
    BASE_URL@.push('/') + endpoint
}

/// The address of `endpoint`.
pub fn get_url(endpoint: &str) -> (out: String)
    ensures
        out@ == url_text(endpoint@),
{
    let mut out = String::new();
    push_text(&mut out, BASE_URL);
    push_char(&mut out, '/');
    push_text(&mut out, endpoint);
    assert(out@ =~= url_text(endpoint@));
    out
}

/// The parameters of a query.
#[derive(Debug)]
pub enum QueryParams {
    /// No parameter.
    Empty,
    /// These, in order.
    With(Vec<(String, String)>),
}

/// Mathematical value of a list of parameters.
pub open spec fn pairs(items: Seq<(String, String)>) -> Seq<(Seq<char>, Seq<char>)> {
    items.map_values(|p: (String, String)| (p.0@, p.1@))
}

impl View for QueryParams {
    type V = Seq<(Seq<char>, Seq<char>)>;

    open spec fn view(&self) -> Seq<(Seq<char>, Seq<char>)> {
        match self {
            QueryParams::Empty => Seq::empty(),
            QueryParams::With(items) => pairs(items@),
        }
    }
}

/// Collects the parameters of a query.
#[derive(Debug)]
pub struct QueryBuilder(pub Vec<(String, String)>);

impl QueryParams {
    /// A builder without parameters.
    pub fn builder() -> (out: QueryBuilder)
        ensures
            out.0@.len() == 0,
    {
        QueryBuilder(Vec::new())
    }
}

impl QueryBuilder {
    /// Adds the parameter `key` with `value` behind those already there.
    pub fn param(self, key: &str, value: String) -> (out: Self)
        ensures
            pairs(out.0@) == pairs(self.0@).push((key@, value@)),
    {
        let mut items = self.0;
        let ghost before = pairs(items@);
        let pair = (key.to_owned(), value);
        items.push(pair);
        assert(pairs(items@) =~= before.push((key@, value@)));
        QueryBuilder(items)
    }

    /// The parameters collected; [`QueryParams::Empty`] where there are none.
    pub fn build(self) -> (out: QueryParams)
        ensures
            out@ == pairs(self.0@),
            out is Empty <==> self.0@.len() == 0,
    {
        if self.0.len() == 0 {
            assert(pairs(self.0@) =~= Seq::empty());
            QueryParams::Empty
        } else {
            QueryParams::With(self.0)
        }
    }
}

/// The query string of the first `n` parameters: `key=value`, joined by `&`.
/// Nothing is escaped.
pub open spec fn query_text(items: Seq<(Seq<char>, Seq<char>)>, n: int) -> Seq<char>
    decreases n,
{
    if n <= 0 {
        Seq::empty()
    } else if n == 1 {
        items[0].0.push('=') + items[0].1
    } else {
        query_text(items, n - 1).push('&') + items[n - 1].0.push('=') + items[n - 1].1
    }
}

/// The address `url` with the parameters `items`: the query string follows a
/// `?`, and neither is there where there is no parameter.
pub open spec fn full_url_text(url: Seq<char>, items: Seq<(Seq<char>, Seq<char>)>) -> Seq<char> {
    if items.len() == 0 {
        url
    } else {
        url.push('?') + query_text(items, items.len() as int)
    }
}

/// The address `url` with the parameters `params`.
pub fn full_url(url: &str, params: &QueryParams) -> (out: String)
    ensures
        out@ == full_url_text(url@, params@),
{
    let mut out = String::new();
    push_text(&mut out, url);
    assert(out@ =~= url@);
    match params {
        QueryParams::Empty => {},
        QueryParams::With(items) => {
            if items.len() > 0 {
                push_char(&mut out, '?');
                let ghost all = pairs(items@);
                let mut i: usize = 0;
                while i < items.len()
                    invariant
                        i <= items.len(),
                        all == pairs(items@),
                        out@ == url@.push('?') + query_text(all, i as int),
                    decreases items.len() - i,
                {
                    assert(all[i as int] == (items@[i as int].0@, items@[i as int].1@));
                    let ghost before = out@;
                    if i > 0 {
                        push_char(&mut out, '&');
                    }
                    push_text(&mut out, items[i].0.as_str());
                    push_char(&mut out, '=');
                    push_text(&mut out, items[i].1.as_str());
                    assert(out@ =~= url@.push('?') + query_text(all, i + 1));
                    i = i + 1;
                }
            }
        },
    }
    out
}

/// The credentials of this application.
#[derive(Debug)]
pub struct ClientParams {
    pub client_id: String,
    pub client_secret: String,
}

impl ClientParams {
    /// The form that asks for a token by the client-credentials grant.
    pub fn token_form(&self) -> (out: Vec<(String, String)>)
        ensures
            pairs(out@) == seq![
                ("client_id"@, self.client_id@),
                ("client_secret"@, self.client_secret@),
                ("grant_type"@, "client_credentials"@),
            ],
    {
        let mut out: Vec<(String, String)> = Vec::new();
        out.push(("client_id".to_owned(), self.client_id.clone()));
        out.push(("client_secret".to_owned(), self.client_secret.clone()));
        out.push(("grant_type".to_owned(), "client_credentials".to_owned()));
        assert(pairs(out@) =~= seq![
            ("client_id"@, self.client_id@),
            ("client_secret"@, self.client_secret@),
            ("grant_type"@, "client_credentials"@),
        ]);
        out
    }
}

/// The header that names the application.
pub const CLIENT_ID_HEADER: &'static str = "Client-ID";

/// The header that carries the token.
pub const AUTHORIZATION_HEADER: &'static str = "Authorization";

/// The header by which a rate-limited response says how long to wait.
pub const RETRY_AFTER_HEADER: &'static str = "Retry-After";

/// How long before its expiry a token is replaced, in seconds.
pub const REFRESH_MARGIN: u64 = 600;

/// A token of the upstream API.
#[derive(Debug)]
pub struct Identity {
    pub access_token: String,
    /// When the token expires, in seconds since the Unix epoch.
    pub expires_at: u64,
    pub token_type: String,
}

impl Clone for Identity {
    fn clone(&self) -> (out: Self)
        ensures
            out == *self,
    {
        Identity {
            access_token: self.access_token.clone(),
            expires_at: self.expires_at,
            token_type: self.token_type.clone(),
        }
    }
}

impl Identity {
    /// The token granted at `now` for `expires_in` seconds.
    pub fn granted(access_token: String, expires_in: u64, token_type: String, now: u64) -> (out:
        Self)
        requires
            now + expires_in <= u64::MAX,
        ensures
            out.access_token == access_token,
            out.token_type == token_type,
            out.expires_at == now + expires_in,
    {
        Identity { access_token, expires_at: now + expires_in, token_type }
    }

    /// The headers of a request to the API made for the application
    /// `params` with this token: the application's id, and the token as a
    /// bearer token.
    pub fn request_headers(&self, params: &ClientParams) -> (out: Vec<(String, String)>)
        ensures
            pairs(out@) == seq![
                (CLIENT_ID_HEADER@, params.client_id@),
                (AUTHORIZATION_HEADER@, "Bearer "@ + self.access_token@),
            ],
    {
        let mut bearer = String::new();
        push_text(&mut bearer, "Bearer ");
        push_text(&mut bearer, self.access_token.as_str());
        assert(bearer@ =~= "Bearer "@ + self.access_token@);
        let mut out: Vec<(String, String)> = Vec::new();
        out.push((CLIENT_ID_HEADER.to_owned(), params.client_id.clone()));
        out.push((AUTHORIZATION_HEADER.to_owned(), bearer));
        assert(pairs(out@) =~= seq![
            (CLIENT_ID_HEADER@, params.client_id@),
            (AUTHORIZATION_HEADER@, "Bearer "@ + self.access_token@),
        ]);
        out
    }

    /// Whether the token is to be replaced at `now`: it expires in less than
    /// [`REFRESH_MARGIN`] seconds, or has expired.
    pub fn needs_refresh(&self, now: u64) -> (out: bool)
        ensures
            out == (self.expires_at < now + REFRESH_MARGIN),
    {
        self.expires_at < REFRESH_MARGIN || self.expires_at - REFRESH_MARGIN < now
    }
}

/// The first pause between two attempts, in seconds.
pub const MIN_BACKOFF: u64 = 1;

/// The longest pause between two attempts, in seconds.
pub const MAX_BACKOFF: u64 = 16;

/// How many attempts a request is given.
pub const MAX_ATTEMPTS: u8 = 10;

/// The pause after a rate-limited attempt whose response does not say how long to wait.
pub const RATE_LIMIT_WAIT: u64 = 10;

/// The status that tells a client to slow down.
pub const TOO_MANY_REQUESTS: u16 = 429;

/// What a transport failure says of itself.
#[derive(Debug)]
pub struct TransportError {
    /// It arose while connecting.
    pub connect: bool,
    /// It is a timeout.
    pub timeout: bool,
    /// It arose while the request was sent.
    pub request: bool,
    pub description: String,
}

/// What one attempt met.
#[derive(Debug)]
pub enum Attempt {
    /// A response, with its status and the text of its `Retry-After` header,
    /// where it has one that is text.
    Response { status: u16, retry_after: Option<String> },
    /// No response.
    Failed(TransportError),
}

/// Mathematical value of an [`Attempt`].
pub enum AttemptView {
    Response { status: u16, retry_after: Option<Seq<char>> },
    Failed { connect: bool, timeout: bool, request: bool, description: Seq<char> },
}

impl View for Attempt {
    type V = AttemptView;

    open spec fn view(&self) -> AttemptView {
        match self {
            Attempt::Response { status, retry_after } => AttemptView::Response {
                status: *status,
                retry_after: opt_text(*retry_after),
            },
            Attempt::Failed(e) => AttemptView::Failed {
                connect: e.connect,
                timeout: e.timeout,
                request: e.request,
                description: e.description@,
            },
        }
    }
}

/// What to do after an attempt.
#[derive(Debug, PartialEq, Eq)]
pub enum Action {
    /// The response is the answer: hand its body to the parser.
    Deliver,
    /// Wait this many seconds, then try again if the budget allows.
    Sleep(u64),
    /// Give up with this error.
    Fail(RequestError),
}

/// Mathematical value of an [`Action`].
pub enum ActionView {
    Deliver,
    Sleep(u64),
    Fail(RequestErrorView),
}

impl View for Action {
    type V = ActionView;

    open spec fn view(&self) -> ActionView {
        match self {
            Action::Deliver => ActionView::Deliver,
            Action::Sleep(secs) => ActionView::Sleep(*secs),
            Action::Fail(e) => ActionView::Fail(e@),
        }
    }
}

/// The progress of one request through its attempts.
#[derive(Clone, Copy, Debug, PartialEq, Eq, Structural)]
pub struct Retry {
    /// How many attempts were made.
    pub attempts: u8,
    /// The pause after the next attempt that is retried for a failure.
    pub backoff: u64,
    /// Whether a rate-limited attempt is retried; if not, it fails the request.
    pub rate_limited: bool,
}

/// Whether `status` reports success.
pub open spec fn is_success(status: u16) -> bool {
    200 <= status <= 299
}

/// Whether `status` reports a failure of the server.
pub open spec fn is_server_error(status: u16) -> bool {
    500 <= status <= 599
}

/// The seconds to wait after a rate-limited attempt: what the header says,
/// and [`RATE_LIMIT_WAIT`] where there is none or it is no number.
pub open spec fn retry_after_seconds(header: Option<Seq<char>>) -> u64 {
    match header {
        Some(text) => match parse_decimal(text, u64::MAX as nat) {
            Some(secs) => secs as u64,
            None => RATE_LIMIT_WAIT,
        },
        None => RATE_LIMIT_WAIT,
    }
}

/// The pause that follows the pause `backoff`: twice as long, within the two bounds.
pub open spec fn next_backoff(backoff: u64) -> u64 {
    if backoff * 2 > MAX_BACKOFF {
        MAX_BACKOFF
    } else if backoff * 2 < MIN_BACKOFF {
        MIN_BACKOFF
    } else {
        (backoff * 2) as u64
    }
}

/// Whether the attempt is retried after the current backoff: the server
/// failed, or the transport failed while connecting, sending or waiting.
pub open spec fn backs_off(a: AttemptView) -> bool {
    match a {
        AttemptView::Response { status, .. } => !is_success(status) && is_server_error(status),
        AttemptView::Failed { connect, timeout, request, .. } => connect || timeout || request,
    }
}

/// Whether the attempt is retried after the pause that its response asks for.
pub open spec fn slows_down(r: Retry, a: AttemptView) -> bool {
    match a {
        AttemptView::Response { status, .. } => r.rate_limited && !is_success(status)
            && !is_server_error(status) && status == TOO_MANY_REQUESTS,
        AttemptView::Failed { .. } => false,
    }
}

/// Whether the budget of attempts is spent.
pub open spec fn exhausted(r: Retry) -> bool {
    r.attempts >= MAX_ATTEMPTS
}

/// What to do after the attempt `a` in the state `r`.
pub open spec fn decide(r: Retry, a: AttemptView) -> ActionView {
    if exhausted(r) {
        ActionView::Fail(RequestErrorView::Timeout)
    } else if backs_off(a) {
        ActionView::Sleep(r.backoff)
    } else if slows_down(r, a) {
        ActionView::Sleep(retry_after_seconds(a->retry_after))
    } else {
        match a {
            AttemptView::Response { status, .. } => if is_success(status) {
                ActionView::Deliver
            } else {
                ActionView::Fail(RequestErrorView::Http(status))
            },
            AttemptView::Failed { description, .. } => ActionView::Fail(
                RequestErrorView::Unexpected(description),
            ),
        }
    }
}

/// The state after the attempt `a` in the state `r`: one more attempt is
/// made, and the backoff grows only where it was used.
pub open spec fn advance(r: Retry, a: AttemptView) -> Retry {
    if exhausted(r) {
        r
    } else {
        Retry {
            attempts: (r.attempts + 1) as u8,
            backoff: if backs_off(a) {
                next_backoff(r.backoff)
            } else {
                r.backoff
            },
            rate_limited: r.rate_limited,
        }
    }
}

impl Retry {
    /// The state before the first attempt.
    pub fn new(rate_limited: bool) -> (out: Self)
        ensures
            out == (Retry { attempts: 0, backoff: MIN_BACKOFF, rate_limited }),
    {
        Retry { attempts: 0, backoff: MIN_BACKOFF, rate_limited }
    }

    /// Whether the budget of attempts is spent: the request fails with a timeout.
    pub fn exhausted(&self) -> (out: bool)
        ensures
            out == exhausted(*self),
    {
        self.attempts >= MAX_ATTEMPTS
    }

    /// Takes note of what an attempt met and tells what to do next.
    pub fn step(&mut self, attempt: &Attempt) -> (out: Action)
        ensures
            out@ == decide(*old(self), attempt@),
            *final(self) == advance(*old(self), attempt@),
    {
        if self.exhausted() {
            return Action::Fail(RequestError::Timeout);
        }
        self.attempts = self.attempts + 1;
        let retried = match attempt {
            Attempt::Response { status, retry_after } => {
                let status: u16 = *status;
                if 200 <= status && status <= 299 {
                    return Action::Deliver;
                } else if 500 <= status && status <= 599 {
                    true
                } else if self.rate_limited && status == TOO_MANY_REQUESTS {
                    let secs: u64 = match retry_after {
                        Some(text) => match read_decimal(text.as_str(), u64::MAX) {
                            Some(n) => n,
                            None => RATE_LIMIT_WAIT,
                        },
                        None => RATE_LIMIT_WAIT,
                    };
                    return Action::Sleep(secs);
                } else {
                    return Action::Fail(RequestError::Http(status));
                }
            },
            Attempt::Failed(e) => {
                if e.connect || e.timeout || e.request {
                    true
                } else {
                    return Action::Fail(RequestError::Unexpected(e.description.clone()));
                }
            },
        };
        assert(retried);
        let pause: u64 = self.backoff;
        self.backoff = if pause > MAX_BACKOFF / 2 {
            MAX_BACKOFF
        } else if pause * 2 < MIN_BACKOFF {
            MIN_BACKOFF
        } else {
            pause * 2
        };
        Action::Sleep(pause)
    }
}

/// The pause after `k` failures in a row: one second doubled `k` times, sixteen at most.
pub open spec fn backoff_after(k: nat) -> u64 {
    if k == 0 {
        1
    } else if k == 1 {
        2
    } else if k == 2 {
        4
    } else if k == 3 {
        8
    } else {
        16
    }
}

/// The state after `k` attempts from `r` that each met `a`.
pub open spec fn after_repeated(r: Retry, a: AttemptView, k: nat) -> Retry
    decreases k,
{
    if k == 0 {
        r
    } else {
        advance(after_repeated(r, a, (k - 1) as nat), a)
    }
}

/// While failures are retried, the pauses double from one second up to
/// sixteen: the pause after the `k`-th failure in a row is `backoff_after(k)`.
pub proof fn lemma_backoff_doubles_to_cap(rate_limited: bool, a: AttemptView, k: nat)
    requires
        backs_off(a),
        k < MAX_ATTEMPTS,
    ensures
        ({
            let r = after_repeated(
                Retry { attempts: 0, backoff: MIN_BACKOFF, rate_limited },
                a,
                k,
            );
            &&& r.attempts == k
            &&& r.backoff == backoff_after(k)
            &&& decide(r, a) == ActionView::Sleep(backoff_after(k))
        }),
    decreases k,
{
    if k > 0 {
        lemma_backoff_doubles_to_cap(rate_limited, a, (k - 1) as nat);
    }
}

/// A rate-limited attempt is retried after exactly the pause that its
/// response asks for, ten seconds where it asks for none, and leaves the
/// backoff as it was.
pub proof fn lemma_rate_limit_keeps_backoff(r: Retry, header: Option<Seq<char>>)
    requires
        r.rate_limited,
        !exhausted(r),
    ensures
        ({
            let a = AttemptView::Response { status: TOO_MANY_REQUESTS, retry_after: header };
            &&& decide(r, a) == ActionView::Sleep(retry_after_seconds(header))
            &&& advance(r, a).backoff == r.backoff
            &&& advance(r, a).attempts == r.attempts + 1
        }),
        header is None ==> retry_after_seconds(header) == RATE_LIMIT_WAIT,
{
}

/// The budget is spent after ten attempts, whatever they met, and from then
/// on every answer is a timeout.
pub proof fn lemma_budget_is_ten_attempts(r: Retry, a: AttemptView, b: AttemptView)
    requires
        r.attempts <= MAX_ATTEMPTS,
    ensures
        advance(r, a).attempts <= MAX_ATTEMPTS,
        !exhausted(r) ==> advance(r, a).attempts == r.attempts + 1,
        exhausted(r) ==> decide(r, b) == ActionView::Fail(RequestErrorView::Timeout) && advance(
            r,
            b,
        ) == r,
{
}

/// How a request ended.
#[derive(Debug, PartialEq, Eq)]
pub enum End {
    /// A response was delivered.
    Delivered,
    /// The request failed: with what an attempt met, or with a timeout once
    /// the budget was spent.
    Failed(RequestError),
    /// It has not ended: another attempt is due.
    Pending,
}

/// Mathematical value of an [`End`].
pub enum EndView {
    Delivered,
    Failed(RequestErrorView),
    Pending,
}

impl View for End {
    type V = EndView;

    open spec fn view(&self) -> EndView {
        match self {
            End::Delivered => EndView::Delivered,
            End::Failed(e) => EndView::Failed(e@),
            End::Pending => EndView::Pending,
        }
    }
}

/// The course of a request.
#[derive(Debug)]
pub struct Trace {
    /// The pauses that were made, in seconds, in order.
    pub sleeps: Vec<u64>,
    /// How many attempts were made.
    pub made: usize,
    pub end: End,
}

/// Mathematical value of a [`Trace`].
pub struct TraceView {
    pub sleeps: Seq<u64>,
    pub made: int,
    pub end: EndView,
}

impl View for Trace {
    type V = TraceView;

    open spec fn view(&self) -> TraceView {
        TraceView { sleeps: self.sleeps@, made: self.made as int, end: self.end@ }
    }
}

/// Mathematical value of a list of attempts.
pub open spec fn attempt_views(attempts: Seq<Attempt>) -> Seq<AttemptView> {
    attempts.map_values(|a: Attempt| a@)
}

/// The course of a request from the state `r` on, whose attempts meet
/// `attempts[at..]` one after the other, after the pauses `sleeps`.
pub open spec fn run_from(r: Retry, attempts: Seq<AttemptView>, at: int, sleeps: Seq<u64>) -> TraceView
    decreases attempts.len() - at,
{
    if exhausted(r) {
        TraceView { sleeps, made: at, end: EndView::Failed(RequestErrorView::Timeout) }
    } else if at < 0 || at >= attempts.len() {
        TraceView { sleeps, made: at, end: EndView::Pending }
    } else {
        match decide(r, attempts[at]) {
            ActionView::Deliver => TraceView { sleeps, made: at + 1, end: EndView::Delivered },
            ActionView::Fail(e) => TraceView { sleeps, made: at + 1, end: EndView::Failed(e) },
            ActionView::Sleep(secs) => run_from(
                advance(r, attempts[at]),
                attempts,
                at + 1,
                sleeps.push(secs),
            ),
        }
    }
}

impl Retry {
    /// Follows a request whose attempts meet `attempts` one after the other:
    /// which pauses are made, how many attempts, and how it ends.
    pub fn run(rate_limited: bool, attempts: &Vec<Attempt>) -> (out: Trace)
        ensures
            out@ == run_from(
                Retry { attempts: 0, backoff: MIN_BACKOFF, rate_limited },
                attempt_views(attempts@),
                0,
                Seq::empty(),
            ),
    {
        let ghost all = attempt_views(attempts@);
        let ghost fresh = Retry { attempts: 0, backoff: MIN_BACKOFF, rate_limited };
        let mut retry = Retry::new(rate_limited);
        let mut sleeps: Vec<u64> = Vec::new();
        let mut at: usize = 0;
        while at < attempts.len()
            invariant
                at <= attempts.len(),
                all == attempt_views(attempts@),
                fresh == (Retry { attempts: 0, backoff: MIN_BACKOFF, rate_limited }),
                run_from(retry, all, at as int, sleeps@) == run_from(fresh, all, 0, Seq::empty()),
            decreases attempts.len() - at,
        {
            if retry.exhausted() {
                return Trace { sleeps, made: at, end: End::Failed(RequestError::Timeout) };
            }
            assert(all[at as int] == attempts@[at as int]@);
            match retry.step(&attempts[at]) {
                Action::Deliver => {
                    return Trace { sleeps, made: at + 1, end: End::Delivered };
                },
                Action::Fail(e) => {
                    return Trace { sleeps, made: at + 1, end: End::Failed(e) };
                },
                Action::Sleep(secs) => {
                    sleeps.push(secs);
                },
            }
            at = at + 1;
        }
        if retry.exhausted() {
            Trace { sleeps, made: at, end: End::Failed(RequestError::Timeout) }
        } else {
            Trace { sleeps, made: at, end: End::Pending }
        }
    }
}

} // verus!
