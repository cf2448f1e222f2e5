//! The upstream client's own part in each call: which request to make, and
//! what to make of the list that comes back. The requests themselves are
//! made elsewhere, under the policy of [`crate::oauth::Retry`].

use vstd::prelude::*;
use crate::cache::{find_key, stored, touched, CacheAnswer, GameCache};
use crate::error::{RequestError, RequestErrorView};
use crate::model::{empty_game, Clip, Game, GameView, Video, VideoType};
use crate::text::{same_text, texts};
use crate::oauth::{is_success, pairs, Identity, QueryParams};
use crate::pattern::{regex_replaced, replace_matches};
use crate::text::{decimal, push_decimal, push_text};

verus! {

/// A request to the upstream API.
#[derive(Debug)]
pub struct Request {
    /// The endpoint below the root of the API.
    pub endpoint: String,
    pub params: QueryParams,
}

/// Mathematical value of a [`Request`].
pub struct RequestView {
    pub endpoint: Seq<char>,
    pub params: Seq<(Seq<char>, Seq<char>)>,
}

impl View for Request {
    type V = RequestView;

    open spec fn view(&self) -> RequestView {
        RequestView { endpoint: self.endpoint@, params: self.params@ }
    }
}

/// The parameters that give each of `values` under the name `key`, in order.
pub open spec fn repeated(key: Seq<char>, values: Seq<Seq<char>>) -> Seq<(Seq<char>, Seq<char>)> {
    values.map_values(|v: Seq<char>| (key, v))
}

/// The parameters that give each of `values` under the name `key`, in order.
pub fn repeat_param(key: &str, values: &Vec<String>) -> (out: QueryParams)
    ensures
        out@ == repeated(key@, texts(values@)),
{
    let mut builder = QueryParams::builder();
    let mut i: usize = 0;
    assert(pairs(builder.0@) =~= repeated(key@, texts(values@.subrange(0, 0))));
    while i < values.len()
        invariant
            i <= values.len(),
            pairs(builder.0@) == repeated(key@, texts(values@.subrange(0, i as int))),
        decreases values.len() - i,
    {
        builder = builder.param(key, values[i].clone());
        assert(pairs(builder.0@) =~= repeated(key@, texts(values@.subrange(0, i + 1))));
        i = i + 1;
    }
    assert(values@.subrange(0, values.len() as int) =~= values@);
    builder.build()
}

/// `items` without each item that repeats the one before it.
pub open spec fn deduped(items: Seq<Seq<char>>) -> Seq<Seq<char>>
    decreases items.len(),
{
    if items.len() <= 1 {
        items
    } else if items.last() == items[items.len() - 2] {
        deduped(items.drop_last())
    } else {
        deduped(items.drop_last()).push(items.last())
    }
}

/// `items` without each item that repeats the one before it.
pub fn dedup(items: Vec<String>) -> (out: Vec<String>)
    ensures
        texts(out@) == deduped(texts(items@)),
{
    let ghost all = texts(items@);
    let mut out: Vec<String> = Vec::new();
    let mut i: usize = 0;
    assert(texts(out@) =~= deduped(all.subrange(0, 0)));
    while i < items.len()
        invariant
            i <= items.len(),
            all == texts(items@),
            texts(out@) == deduped(all.subrange(0, i as int)),
        decreases items.len() - i,
    {
        let ghost before = texts(out@);
        let ghost upto = all.subrange(0, i + 1);
        assert(upto.drop_last() =~= all.subrange(0, i as int));
        assert(upto.last() == items@[i as int]@);
        if i == 0 {
            out.push(items[i].clone());
            assert(texts(out@) =~= before.push(items@[i as int]@));
            assert(texts(out@) =~= upto);
        } else {
            assert(upto[upto.len() - 2] == items@[i - 1]@);
            if !same_text(items[i].as_str(), items[i - 1].as_str()) {
                out.push(items[i].clone());
                assert(texts(out@) =~= before.push(items@[i as int]@));
            }
        }
        i = i + 1;
    }
    assert(all.subrange(0, items.len() as int) =~= all);
    out
}

/// The request for the category `id`.
pub fn game_request(id: &str) -> (out: Request)
    ensures
        out@ == (RequestView { endpoint: "games"@, params: seq![("id"@, id@)] }),
{
    let params = QueryParams::builder().param("id", id.to_owned()).build();
    assert(params@ =~= seq![("id"@, id@)]);
    Request { endpoint: "games".to_owned(), params }
}

/// The one request that asks for the streams of all of `logins`: those that
/// are live come back.
pub fn streams_request(logins: &Vec<String>) -> (out: Request)
    ensures
        out@ == (RequestView {
            endpoint: "streams"@,
            params: repeated("user_login"@, texts(logins@)),
        }),
{
    Request { endpoint: "streams".to_owned(), params: repeat_param("user_login", logins) }
}

/// The request for the recording `id`.
pub fn video_request(id: &str) -> (out: Request)
    ensures
        out@ == (RequestView { endpoint: "videos"@, params: seq![("id"@, id@)] }),
{
    let params = QueryParams::builder().param("id", id.to_owned()).build();
    assert(params@ =~= seq![("id"@, id@)]);
    Request { endpoint: "videos".to_owned(), params }
}

/// The request for the latest five archived recordings of the channel `user_id`.
pub fn stream_video_request(user_id: &str) -> (out: Request)
    ensures
        out@ == (RequestView {
            endpoint: "videos"@,
            params: seq![("type"@, "archive"@), ("first"@, "5"@), ("user_id"@, user_id@)],
        }),
{
    let params = QueryParams::builder().param("type", "archive".to_owned()).param(
        "first",
        "5".to_owned(),
    ).param("user_id", user_id.to_owned()).build();
    assert(params@ =~= seq![("type"@, "archive"@), ("first"@, "5"@), ("user_id"@, user_id@)]);
    Request { endpoint: "videos".to_owned(), params }
}

/// The request for the recordings `ids`, an id that repeats the one before it left out.
pub fn videos_request(ids: Vec<String>) -> (out: Request)
    ensures
        out@ == (RequestView {
            endpoint: "videos"@,
            params: repeated("id"@, deduped(texts(ids@))),
        }),
{
    let ids = dedup(ids);
    Request { endpoint: "videos".to_owned(), params: repeat_param("id", &ids) }
}

/// The request for the clips of the channel `user_id` since `started_at`, an
/// instant in the form `YYYY-MM-DDTHH:MM:SSZ`. It asks for the largest page:
/// upstream limits before it filters, so the limit is applied to the answer.
pub fn clips_request(user_id: &str, started_at: &str) -> (out: Request)
    ensures
        out@ == (RequestView {
            endpoint: "clips"@,
            params: seq![
                ("first"@, "100"@),
                ("broadcaster_id"@, user_id@),
                ("started_at"@, started_at@),
            ],
        }),
{
    let params = QueryParams::builder().param("first", "100".to_owned()).param(
        "broadcaster_id",
        user_id.to_owned(),
    ).param("started_at", started_at.to_owned()).build();
    assert(params@ =~= seq![
        ("first"@, "100"@),
        ("broadcaster_id"@, user_id@),
        ("started_at"@, started_at@),
    ]);
    Request { endpoint: "clips".to_owned(), params }
}

/// The category in the answer to the request for `id`: the last of the list,
/// and "not found" where the list is empty.
pub fn pick_game(data: Vec<Game>, id: &str) -> (out: Result<Game, RequestError>)
    ensures
        match out {
            Ok(g) => data@.len() > 0 && g@ == data@.last()@,
            Err(e) => data@.len() == 0 && e@ == RequestErrorView::NotFound("Game"@, id@),
        },
{
    let mut data = data;
    match data.pop() {
        Some(game) => Ok(game),
        None => Err(RequestError::NotFound("Game".to_owned(), id.to_owned())),
    }
}

/// The recording in the answer to the request for `id`: the last of the
/// list, and "not found" where the list is empty.
pub fn pick_video(data: Vec<Video>, id: &str) -> (out: Result<Video, RequestError>)
    ensures
        match out {
            Ok(v) => data@.len() > 0 && v@ == data@.last()@,
            Err(e) => data@.len() == 0 && e@ == RequestErrorView::NotFound("Video"@, id@),
        },
{
    let mut data = data;
    match data.pop() {
        Some(video) => Ok(video),
        None => Err(RequestError::NotFound("Video".to_owned(), id.to_owned())),
    }
}

/// Whether `video` can be the recording of a session begun at `started_at`:
/// it is an archive, created no earlier than the session began.
pub open spec fn records_session(video: Video, started_at: u64) -> bool {
    video.kind == VideoType::Archive && video.created_at >= started_at
}

/// The place of the first of `data[from..]` that can be the recording of a
/// session begun at `started_at`, if there is one.
pub open spec fn first_recording_from(data: Seq<Video>, started_at: u64, from: int) -> Option<int>
    decreases data.len() - from,
{
    if from < 0 || from >= data.len() {
        None
    } else if records_session(data[from], started_at) {
        Some(from)
    } else {
        first_recording_from(data, started_at, from + 1)
    }
}

/// The recording of the session of the channel `user_id` begun at
/// `started_at`, among the channel's latest recordings `data`: the first
/// archive created no earlier than the session began, and "not found" where
/// there is none.
pub fn pick_stream_video(data: Vec<Video>, started_at: u64, user_id: &str) -> (out: Result<
    Video,
    RequestError,
>)
    ensures
        match out {
            Ok(v) => first_recording_from(data@, started_at, 0) matches Some(at) && v@
                == data@[at]@,
            Err(e) => first_recording_from(data@, started_at, 0) is None && e@
                == RequestErrorView::NotFound("Video"@, user_id@),
        },
{
    let mut i: usize = 0;
    while i < data.len()
        invariant
            i <= data.len(),
            first_recording_from(data@, started_at, 0) == first_recording_from(
                data@,
                started_at,
                i as int,
            ),
        decreases data.len() - i,
    {
        let fits = match data[i].kind {
            VideoType::Archive => data[i].created_at >= started_at,
            _ => false,
        };
        if fits {
            return Ok(data[i].clone());
        }
        i = i + 1;
    }
    Err(RequestError::NotFound("Video".to_owned(), user_id.to_owned()))
}

/// The first `num` of `data`, or all of them where there are fewer.
pub fn limit_clips(data: Vec<Clip>, num: u8) -> (out: Vec<Clip>)
    ensures
        out@ == (if data@.len() <= num {
            data@
        } else {
            data@.subrange(0, num as int)
        }),
{
    let mut data = data;
    data.truncate(num as usize);
    data
}

/// The pattern of the placeholder for the width in the address of a thumbnail.
pub open spec fn width_pattern() -> Seq<char> {
    "%?\\{width\\}"@
}

/// The pattern of the placeholder for the height in the address of a thumbnail.
pub open spec fn height_pattern() -> Seq<char> {
    "%?\\{height\\}"@
}

/// The address of a thumbnail in full size: the first placeholder for the
/// width gives way to 1920, then the first one for the height to 1080. A
/// pattern that is refused replaces nothing.
pub open spec fn sized_url(template: Seq<char>) -> Seq<char> {
    let wide = match regex_replaced(width_pattern(), template, 1, "1920"@) {
        Some(r) => r,
        None => template,
    };
    match regex_replaced(height_pattern(), wide, 1, "1080"@) {
        Some(r) => r,
        None => wide,
    }
}

/// `sized` with the instant `now` as a query that defeats caches.
pub open spec fn stamped_url(sized: Seq<char>, now: u64) -> Seq<char> {
    sized + "?t="@ + decimal(now as nat)
}

/// `sized` with the instant `now` as a query that defeats caches.
pub fn stamp_url(sized: String, now: u64) -> (out: String)
    ensures
        out@ == stamped_url(sized@, now),
{
    let mut out = sized;
    push_text(&mut out, "?t=");
    push_decimal(&mut out, now);
    assert(out@ =~= stamped_url(sized@, now));
    out
}

/// The address from which the thumbnail of the template `template` is fetched at `now`.
pub fn thumbnail_url(template: &str, now: u64) -> (out: String)
    ensures
        out@ == stamped_url(sized_url(template@), now),
{
    let wide = match replace_matches("%?\\{width\\}", template, 1, "1920") {
        Some(r) => r,
        None => template.to_owned(),
    };
    let sized = match replace_matches("%?\\{height\\}", wide.as_str(), 1, "1080") {
        Some(r) => r,
        None => wide,
    };
    stamp_url(sized, now)
}

/// The status of an entity that does not exist.
pub const NOT_FOUND: u16 = 404;

/// What the fetch of the thumbnail `url` comes to, given the status and the
/// body of the response: the body on success, "not found" on 404, and the
/// status as an error otherwise.
pub fn thumbnail_result(status: u16, body: Vec<u8>, url: &str) -> (out: Result<
    Vec<u8>,
    RequestError,
>)
    ensures
        match out {
            Ok(bytes) => is_success(status) && bytes@ == body@,
            Err(e) => !is_success(status) && e@ == (if status == NOT_FOUND {
                RequestErrorView::NotFound("Thumbnail"@, url@)
            } else {
                RequestErrorView::Http(status)
            }),
        },
{
    if 200 <= status && status <= 299 {
        Ok(body)
    } else if status == NOT_FOUND {
        Err(RequestError::NotFound("Thumbnail".to_owned(), url.to_owned()))
    } else {
        Err(RequestError::Http(status))
    }
}

/// What to do to learn a category.
#[derive(Debug)]
pub enum GameStep {
    /// It is known.
    Found(Game),
    /// Make this request, and hand the answer to [`TwitchClient::cache_game`].
    Ask(Request),
}

/// The state that all calls to the upstream API share: the token and the
/// cache of categories.
pub struct TwitchClient {
    pub identity: Identity,
    pub games_cache: GameCache,
}

impl TwitchClient {
    /// A client with the token `identity` and an empty cache.
    pub fn new(identity: Identity) -> (out: Self)
        ensures
            out.identity == identity,
            out.games_cache.wf(),
            out.games_cache@.len() == 0,
    {
        TwitchClient { identity, games_cache: GameCache::new() }
    }

    /// A copy of the token in use.
    pub fn identity(&self) -> (out: Identity)
        ensures
            out == self.identity,
    {
        self.identity.clone()
    }

    /// Whether the token is to be replaced at `now`.
    pub fn refresh_due(&self, now: u64) -> (out: bool)
        ensures
            out == (self.identity.expires_at < now + crate::oauth::REFRESH_MARGIN),
    {
        self.identity.needs_refresh(now)
    }

    /// Takes the outcome of a new grant: a token replaces the one in use; a
    /// failure is returned and leaves the token in use.
    pub fn refresh_auth(&mut self, granted: Result<Identity, RequestError>) -> (out: Result<
        (),
        RequestError,
    >)
        ensures
            final(self).games_cache == old(self).games_cache,
            match granted {
                Ok(id) => out is Ok && final(self).identity == id,
                Err(e) => out == Err::<(), RequestError>(e) && final(self).identity == old(
                    self,
                ).identity,
            },
    {
        match granted {
            Ok(id) => {
                self.identity = id;
                Ok(())
            },
            Err(e) => Err(e),
        }
    }

    /// Looks for the category `id`. The empty id is the "no category"
    /// sentinel: neither the cache nor the API is asked. A cached category is
    /// found and becomes the most recently used. Any other has to be asked for.
    pub fn get_game_by_id(&mut self, id: &str) -> (out: GameStep)
        requires
            old(self).games_cache.wf(),
        ensures
            final(self).games_cache.wf(),
            final(self).identity == old(self).identity,
            id@.len() == 0 ==> {
                &&& out matches GameStep::Found(g) && g@ == empty_game()
                &&& final(self).games_cache@ == old(self).games_cache@
            },
            id@.len() > 0 ==> match find_key(old(self).games_cache@, id@) {
                Some(at) => {
                    &&& out matches GameStep::Found(g) && g@ == (GameView {
                        id: old(self).games_cache@[at].1.0,
                        name: old(self).games_cache@[at].1.1,
                    })
                    &&& final(self).games_cache@ == touched(old(self).games_cache@, at)
                },
                None => {
                    &&& out matches GameStep::Ask(r) && r@ == (RequestView {
                        endpoint: "games"@,
                        params: seq![("id"@, id@)],
                    })
                    &&& final(self).games_cache@ == old(self).games_cache@
                },
            },
    {
        match self.games_cache.lookup(id) {
            CacheAnswer::Sentinel(game) => GameStep::Found(game),
            CacheAnswer::Hit(game) => GameStep::Found(game),
            CacheAnswer::Miss => GameStep::Ask(game_request(id)),
        }
    }

    /// Takes the answer to the request for the category `id`: the category
    /// in it is cached under `id` and returned; an answer without one is
    /// "not found" and leaves the cache as it was. Nothing is cached under
    /// the empty id.
    pub fn cache_game(&mut self, id: &str, data: Vec<Game>) -> (out: Result<Game, RequestError>)
        requires
            old(self).games_cache.wf(),
        ensures
            final(self).games_cache.wf(),
            final(self).identity == old(self).identity,
            match out {
                Ok(g) => {
                    &&& data@.len() > 0
                    &&& g@ == data@.last()@
                    &&& final(self).games_cache@ == stored(old(self).games_cache@, id@, g@)
                },
                Err(e) => {
                    &&& data@.len() == 0
                    &&& e@ == RequestErrorView::NotFound("Game"@, id@)
                    &&& final(self).games_cache@ == old(self).games_cache@
                },
            },
    {
        match pick_game(data, id) {
            Ok(game) => {
                self.games_cache.store(id.to_owned(), &game);
                Ok(game)
            },
            Err(e) => Err(e),
        }
    }
}

} // verus!
