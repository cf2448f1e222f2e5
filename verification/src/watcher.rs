//! The per-channel watcher: a state machine over "observed live" and
//! "observed offline" events that decides which notifications to emit.
//!
//! The watcher does no I/O. Whatever a transition has to know from the
//! upstream API is fetched by the caller and handed in as [`Lookups`]; which
//! lookups an event calls for is told by [`StreamWatcher::plan`].

use std::sync::Arc;
use vstd::prelude::*;
use crate::config::{event_key, has_event, role_of, role_pairs, Config, EventName};
use crate::error::{is_data_gap, RequestError};
use crate::model::{duration_text, duration_total, empty_game};
use crate::text::same_text;
use crate::model::{Clip, ClipView, Game, GameView, Stream, StreamView, Video, VideoDuration};
use crate::notify::opt_notification;
use crate::text::opt_text;
use crate::notify::{Embed, EmbedField, EmbedFieldView, EmbedView, Notification, NotificationView};
use crate::notify::EMBED_COLOR;
use crate::episode::{build_index, clip_lines, clip_views, timestamp_index, top_clips_text};
use crate::text::texts;
use crate::text::{decimal, decimal2, push_char, push_decimal, push_decimal2, push_text};
use crate::util::Timestamp;

verus! {

/// Splits a number of seconds into hours, minutes and seconds, each below sixty.
pub fn split_duration(secs: u32) -> (out: (u8, u8, u8))
    ensures
        out.0 == (secs / 3600) % 60,
        out.1 == (secs / 60) % 60,
        out.2 == secs % 60,
{
    let hour: u32 = (secs / 3600) % 60;
    let mins: u32 = (secs / 60) % 60;
    let secs: u32 = secs % 60;
    (hour as u8, mins as u8, secs as u8)
}

/// The empty text.
pub fn empty_str() -> (out: String)
    ensures
        out@ == Seq::<char>::empty(),
{
    String::new()
}

/// One contiguous pairing of category and recording within a session.
#[derive(Debug)]
pub struct StreamSegment {
    pub game: Game,
    /// Seconds from the start of the recording to the start of the segment.
    pub position: u32,
    /// The recording's id; empty where none is known.
    pub video_id: String,
}

/// Mathematical value of a [`StreamSegment`].
pub struct SegmentView {
    pub game: GameView,
    pub position: u32,
    pub video_id: Seq<char>,
}

impl View for StreamSegment {
    type V = SegmentView;

    open spec fn view(&self) -> SegmentView {
        SegmentView { game: self.game@, position: self.position, video_id: self.video_id@ }
    }
}

/// The seconds from `start` to `now` as a segment offset: zero where `now`
/// lies before `start`, and modulo 2^32.
pub open spec fn elapsed(start: u64, now: u64) -> u32 {
    if now >= start {
        ((now - start) % 0x1_0000_0000) as u32
    } else {
        0
    }
}

/// The id under which a segment records the session's recording: that of the
/// recording found, and none where the lookup failed, for whatever reason.
pub open spec fn found_video_id(video: Result<Video, RequestError>) -> Seq<char> {
    match video {
        Ok(v) => v@.id,
        Err(_) => Seq::empty(),
    }
}

/// The address of the recording `video_id`.
pub open spec fn video_url_text(video_id: Seq<char>) -> Seq<char> {
    "https://www.twitch.tv/videos/"@ + video_id
}

/// `HH:MM:SS` for an offset of `position` seconds, the hours modulo sixty.
pub open spec fn clock_text(position: u32) -> Seq<char> {
    decimal2(((position / 3600) % 60) as nat).push(':') + decimal2(
        ((position / 60) % 60) as nat,
    ).push(':') + decimal2((position % 60) as nat)
}

/// `HHhMMmSSs` for an offset of `position` seconds, the hours modulo sixty.
pub open spec fn seek_text(position: u32) -> Seq<char> {
    decimal2(((position / 3600) % 60) as nat).push('h') + decimal2(
        ((position / 60) % 60) as nat,
    ).push('m') + decimal2((position % 60) as nat).push('s')
}

/// The timestamp of a segment as the sink shows it: the clock in monospace,
/// and, where the recording is known, a link to it that seeks to the offset.
pub open spec fn vod_link_text(seg: SegmentView) -> Seq<char> {
    let display = seq!['`'] + clock_text(seg.position).push('`');
    if seg.video_id.len() == 0 {
        display
    } else {
        seq!['['] + display + "]("@ + video_url_text(seg.video_id) + "?t="@ + seek_text(
            seg.position,
        ).push(')')
    }
}

impl StreamSegment {
    /// The segment that begins at `now` in a session begun at `start`, with
    /// the category `game` and whatever the lookup of the recording returned.
    pub fn from(start: u64, now: u64, game: Game, video: Result<Video, RequestError>) -> (out:
        Self)
        ensures
            out@ == (SegmentView {
                game: game@,
                position: elapsed(start, now),
                video_id: found_video_id(video),
            }),
    {
        let position: u32 = if now >= start {
            ((now - start) % 0x1_0000_0000) as u32
        } else {
            0
        };
        let video_id = match video {
            Ok(v) => v.id,
            Err(_) => empty_str(),
        };
        Self { game, position, video_id }
    }

    /// The address of this segment's recording.
    pub fn video_url(&self) -> (out: String)
        ensures
            out@ == video_url_text(self@.video_id),
    {
        let mut out = String::new();
        push_text(&mut out, "https://www.twitch.tv/videos/");
        push_text(&mut out, self.video_id.as_str());
        assert(out@ =~= video_url_text(self@.video_id));
        out
    }

    /// The timestamp of this segment as the sink shows it.
    pub fn vod_link(&self) -> (out: String)
        ensures
            out@ == vod_link_text(self@),
    {
        let (hour, min, sec) = split_duration(self.position);
        let mut display = String::new();
        push_char(&mut display, '`');
        push_decimal2(&mut display, hour as u64);
        push_char(&mut display, ':');
        push_decimal2(&mut display, min as u64);
        push_char(&mut display, ':');
        push_decimal2(&mut display, sec as u64);
        push_char(&mut display, '`');
        assert(display@ =~= seq!['`'] + clock_text(self.position).push('`'));
        if self.video_id.as_str().is_empty() {
            display
        } else {
            let mut query = String::new();
            push_decimal2(&mut query, hour as u64);
            push_char(&mut query, 'h');
            push_decimal2(&mut query, min as u64);
            push_char(&mut query, 'm');
            push_decimal2(&mut query, sec as u64);
            push_char(&mut query, 's');
            assert(query@ =~= seek_text(self.position));
            let url = self.video_url();
            let mut out = String::new();
            push_char(&mut out, '[');
            push_text(&mut out, display.as_str());
            push_text(&mut out, "](");
            push_text(&mut out, url.as_str());
            push_text(&mut out, "?t=");
            push_text(&mut out, query.as_str());
            push_char(&mut out, ')');
            assert(out@ =~= vod_link_text(self@));
            out
        }
    }
}

/// What the dispatcher observed of a channel in one poll.
#[derive(Debug)]
pub enum StreamUpdate {
    /// The channel is live, with the poll's snapshot of it.
    Live(Box<Stream>),
    /// The channel was absent from the poll.
    Offline,
}

/// What an event did to a watcher.
#[derive(Clone, Copy, Debug, PartialEq, Eq, Structural)]
pub enum WatcherState {
    /// Nothing to persist.
    Unchanged,
    /// The session is over; the watcher is to be torn down.
    Ended,
    /// The state is to be persisted.
    Updated,
}

/// The state of one watched channel.
#[derive(Debug)]
pub struct StreamWatcher {
    /// The channel's login, in lower case.
    pub user_name: String,
    pub user_id: String,
    /// The id of the current broadcast.
    pub stream_id: String,
    /// The segments of the session so far; empty while the channel is idle.
    pub segments: Vec<StreamSegment>,
    /// When the session began.
    pub start_timestamp: u64,
    /// When the session counts as ended unless the channel is seen live again.
    pub offline_timestamp: Option<Timestamp>,
    pub config: Arc<Config>,
}

/// Mathematical value of a [`StreamWatcher`], the settings left out.
pub struct WatcherView {
    pub user_name: Seq<char>,
    pub user_id: Seq<char>,
    pub stream_id: Seq<char>,
    pub segments: Seq<SegmentView>,
    pub start_timestamp: u64,
    pub offline_timestamp: Option<u64>,
}

/// Mathematical value of a list of segments.
pub open spec fn segment_views(segments: Seq<StreamSegment>) -> Seq<SegmentView> {
    segments.map_values(|s: StreamSegment| s@)
}

impl View for StreamWatcher {
    type V = WatcherView;

    open spec fn view(&self) -> WatcherView {
        WatcherView {
            user_name: self.user_name@,
            user_id: self.user_id@,
            stream_id: self.stream_id@,
            segments: segment_views(self.segments@),
            start_timestamp: self.start_timestamp,
            offline_timestamp: match self.offline_timestamp {
                Some(t) => Some(t.0),
                None => None,
            },
        }
    }
}

/// The channel is idle: no session is tracked.
pub open spec fn is_idle(w: WatcherView) -> bool {
    w.segments.len() == 0 && w.offline_timestamp is None
}

/// The channel is live.
pub open spec fn is_live(w: WatcherView) -> bool {
    w.segments.len() > 0 && w.offline_timestamp is None
}

/// The channel was seen offline and its grace period runs.
pub open spec fn in_grace(w: WatcherView) -> bool {
    w.segments.len() > 0 && w.offline_timestamp is Some
}

/// A deadline is set only while a session is tracked.
pub open spec fn well_formed(w: WatcherView) -> bool {
    w.offline_timestamp is Some ==> w.segments.len() > 0
}

/// The category that a lookup stands for: the one found, and the "no
/// category" sentinel where the lookup met a gap in upstream data.
pub open spec fn game_or_default(r: Result<Game, RequestError>) -> GameView {
    match r {
        Ok(g) => g@,
        Err(_) => empty_game(),
    }
}

/// The mention that leads a notification of type `event`: the role recorded
/// for it, and nothing where none is.
pub open spec fn mention_text(cfg: &Config, event: EventName) -> Seq<char> {
    match role_of(role_pairs(cfg.role_map@), event_key(event)) {
        Some(id) => ("<@&"@ + id).push('>'),
        None => Seq::empty(),
    }
}

/// Whether notifications of type `event` are suppressed.
pub open spec fn is_skipped(cfg: &Config, event: EventName) -> bool {
    !has_event(cfg.discord.enabled_events@, event)
}

/// The role name configured for `event`.
pub open spec fn role_name_of(cfg: &Config, event: EventName) -> Seq<char> {
    match event {
        EventName::Live => cfg.discord.role_name.live@,
        EventName::Vod => cfg.discord.role_name.vod@,
        EventName::Update => cfg.discord.role_name.update@,
    }
}

/// The hint on how to subscribe to `event`, where hints are shown and a role is named.
pub open spec fn footer_text(cfg: &Config, event: EventName) -> Option<Seq<char>> {
    if !cfg.discord.show_notify_hints || role_name_of(cfg, event).len() == 0 {
        None
    } else {
        Some("Subscribe to notifications by typing: /notify role: "@ + role_name_of(cfg, event))
    }
}

/// The address of the channel of `stream`.
pub open spec fn channel_url(stream: StreamView) -> Seq<char> {
    "https://twitch.tv/"@ + stream.user_name
}

/// The fields of a payload about a running stream: the category, where there
/// is one, and the start of the broadcast.
pub open spec fn stream_fields(stream: StreamView, game: GameView) -> Seq<EmbedFieldView> {
    let started = EmbedFieldView {
        name: "Started"@,
        value: ("<t:"@ + decimal(stream.started_at as nat)) + ":F>"@,
        inline: true,
    };
    if game.id.len() > 0 {
        seq![EmbedFieldView { name: "Playing"@, value: game.name, inline: true }, started]
    } else {
        seq![started]
    }
}

/// The payload about a running stream, for a notification of type `event`.
pub open spec fn stream_embed(
    cfg: &Config,
    event: EventName,
    stream: StreamView,
    game: GameView,
    description: Option<Seq<char>>,
) -> EmbedView {
    EmbedView {
        author: stream.title,
        color: EMBED_COLOR,
        title: Some(channel_url(stream)),
        url: Some(channel_url(stream)),
        description,
        footer: footer_text(cfg, event),
        fields: stream_fields(stream, game),
    }
}

/// The text of a "went live" notification.
pub open spec fn live_content(cfg: &Config, stream: StreamView, game: GameView) -> Seq<char> {
    if game.id.len() == 0 {
        mention_text(cfg, EventName::Live).push(' ') + stream.user_name + " is live!"@
    } else {
        mention_text(cfg, EventName::Live).push(' ') + stream.user_name + " is live with **"@
            + game.name + "**!"@
    }
}

/// The "went live" notification, unless that type is suppressed.
pub open spec fn live_notification(cfg: &Config, stream: StreamView, game: GameView) -> Option<
    NotificationView,
> {
    if is_skipped(cfg, EventName::Live) {
        None
    } else {
        Some(
            NotificationView {
                event: EventName::Live,
                content: live_content(cfg, stream, game),
                embed: stream_embed(cfg, EventName::Live, stream, game, None),
                thumbnail_url: Some(stream.thumbnail_url),
            },
        )
    }
}

/// The state after an idle channel was seen live.
pub open spec fn went_live(
    w: WatcherView,
    stream: StreamView,
    game: GameView,
    video_id: Seq<char>,
) -> WatcherView {
    WatcherView {
        user_name: w.user_name,
        user_id: stream.user_id,
        stream_id: stream.id,
        segments: w.segments.push(SegmentView { game, position: 0, video_id }),
        start_timestamp: stream.started_at,
        offline_timestamp: None,
    }
}

/// The error that fails the event on account of the lookup `r`, if any.
pub open spec fn fatal_error<T>(r: Result<T, RequestError>) -> Option<crate::error::RequestErrorView> {
    match r {
        Ok(_) => None,
        Err(e) => if is_data_gap(e@) {
            None
        } else {
            Some(e@)
        },
    }
}

/// The first of two optional errors.
pub open spec fn first_error(
    a: Option<crate::error::RequestErrorView>,
    b: Option<crate::error::RequestErrorView>,
) -> Option<crate::error::RequestErrorView> {
    if a is Some {
        a
    } else {
        b
    }
}

/// Whether an event with the snapshot `stream` changes the broadcast of the session.
pub open spec fn vod_changed(w: WatcherView, stream: StreamView) -> bool {
    stream.id != w.stream_id
}

/// Whether an event with the snapshot `stream` changes the category of the session.
pub open spec fn game_changed(w: WatcherView, stream: StreamView) -> bool
    recommends
        w.segments.len() > 0,
{
    stream.game_id != w.segments.last().game.id
}

/// The segment that a changed snapshot opens: at the elapsed time of the
/// session, or at zero where a new broadcast begins.
pub open spec fn next_segment(
    w: WatcherView,
    stream: StreamView,
    now: u64,
    game: GameView,
    video_id: Seq<char>,
) -> SegmentView {
    SegmentView {
        game,
        position: if vod_changed(w, stream) {
            0
        } else {
            elapsed(w.start_timestamp, now)
        },
        video_id,
    }
}

/// The state after a tracked channel was seen live with the snapshot `stream`.
pub open spec fn seen_live(
    w: WatcherView,
    stream: StreamView,
    now: u64,
    game: GameView,
    video_id: Seq<char>,
) -> WatcherView {
    if vod_changed(w, stream) || game_changed(w, stream) {
        WatcherView {
            stream_id: stream.id,
            segments: w.segments.push(next_segment(w, stream, now, game, video_id)),
            offline_timestamp: None,
            ..w
        }
    } else {
        WatcherView { offline_timestamp: None, ..w }
    }
}

/// The text of a "changed category" notification.
pub open spec fn update_content(cfg: &Config, stream: StreamView, game: GameView) -> Seq<char> {
    mention_text(cfg, EventName::Update).push(' ') + stream.user_name + " switched game to **"@
        + game.name + "**!"@
}

/// Where to start watching the segment `seg`, if its recording is known.
pub open spec fn segment_hint(seg: SegmentView) -> Option<Seq<char>> {
    if seg.video_id.len() > 0 {
        Some("Start watching at "@ + vod_link_text(seg))
    } else {
        None
    }
}

/// The notification for a tracked channel seen live: one only where the
/// category changed and that type is not suppressed.
pub open spec fn update_notification(
    cfg: &Config,
    w: WatcherView,
    stream: StreamView,
    now: u64,
    game: GameView,
    video_id: Seq<char>,
) -> Option<NotificationView> {
    if !game_changed(w, stream) || is_skipped(cfg, EventName::Update) {
        None
    } else {
        Some(
            NotificationView {
                event: EventName::Update,
                content: update_content(cfg, stream, game),
                embed: stream_embed(
                    cfg,
                    EventName::Update,
                    stream,
                    game,
                    segment_hint(next_segment(w, stream, now, game, video_id)),
                ),
                thumbnail_url: Some(stream.thumbnail_url),
            },
        )
    }
}

/// The fatal error of a lookup, if it has one.
pub fn take_fatal<T>(r: &Result<T, RequestError>) -> (out: Option<RequestError>)
    ensures
        match out {
            Some(e) => fatal_error(*r) == Some(e@),
            None => fatal_error(*r) is None,
        },
{
    match r {
        Ok(_) => None,
        Err(e) => if e.is_data_gap() {
            None
        } else {
            Some(e.duplicate())
        },
    }
}

proof fn lemma_segment_views_push(segments: Seq<StreamSegment>, seg: StreamSegment)
    ensures
        segment_views(segments.push(seg)) == segment_views(segments).push(seg@),
{
    assert(segment_views(segments.push(seg)) =~= segment_views(segments).push(seg@));
}

impl StreamWatcher {
    /// A watcher for the channel `user_name`, idle, created at `now`.
    pub fn new(user_name: String, config: Arc<Config>, now: Timestamp) -> (out: Self)
        ensures
            out@.user_name == user_name@,
            out@.user_id.len() == 0,
            out@.stream_id.len() == 0,
            out@.start_timestamp == now.0,
            is_idle(out@),
            out.config == config,
    {
        Self {
            user_name,
            user_id: empty_str(),
            stream_id: empty_str(),
            config,
            segments: Vec::new(),
            start_timestamp: now.secs(),
            offline_timestamp: None,
        }
    }

    /// The same watcher with other settings.
    pub fn set_config(self, config: Arc<Config>) -> (out: Self)
        ensures
            out@ == self@,
            out.config == config,
    {
        let mut out = self;
        out.config = config;
        out
    }

    /// The mention that leads a notification of type `event`.
    pub fn get_mention(&self, event: EventName) -> (out: String)
        ensures
            out@ == mention_text(&*self.config, event),
    {
        match self.config.get_role(event.key()) {
            Some(id) => {
                let mut out = String::new();
                push_text(&mut out, "<@&");
                push_text(&mut out, id.as_str());
                push_char(&mut out, '>');
                assert(out@ =~= ("<@&"@ + id@).push('>'));
                out
            },
            None => String::new(),
        }
    }

    /// Whether notifications of type `event` are suppressed.
    pub fn is_skipped(&self, event: EventName) -> (out: bool)
        ensures
            out == is_skipped(&*self.config, event),
    {
        !self.config.is_enabled(event)
    }

    /// The hint on how to subscribe to `event`, if one is to be shown.
    pub fn set_footer(&self, event: EventName) -> (out: Option<String>)
        ensures
            opt_text(out) == footer_text(&*self.config, event),
    {
        let name: &String = match event {
            EventName::Live => &self.config.discord.role_name.live,
            EventName::Vod => &self.config.discord.role_name.vod,
            EventName::Update => &self.config.discord.role_name.update,
        };
        if !self.config.discord.show_notify_hints || name.as_str().is_empty() {
            return None;
        }
        let mut out = String::new();
        push_text(&mut out, "Subscribe to notifications by typing: /notify role: ");
        push_text(&mut out, name.as_str());
        assert(out@ =~= "Subscribe to notifications by typing: /notify role: "@ + name@);
        Some(out)
    }

    /// The payload about the running stream `stream`, for a notification of type `event`.
    pub fn create_embed(
        &self,
        event: EventName,
        stream: &Stream,
        game: &Game,
        description: Option<String>,
    ) -> (out: Embed)
        ensures
            out@ == stream_embed(&*self.config, event, stream@, game@, opt_text(description)),
    {
        let mut url = String::new();
        push_text(&mut url, "https://twitch.tv/");
        push_text(&mut url, stream.user_name.as_str());
        assert(url@ =~= channel_url(stream@));
        let mut fields: Vec<EmbedField> = Vec::new();
        if !game.is_empty() {
            fields.push(
                EmbedField { name: "Playing".to_owned(), value: game.name.clone(), inline: true },
            );
        }
        let mut started = String::new();
        push_text(&mut started, "<t:");
        push_decimal(&mut started, stream.started_at);
        push_text(&mut started, ":F>");
        assert(started@ =~= ("<t:"@ + decimal(stream.started_at as nat)) + ":F>"@);
        fields.push(EmbedField { name: "Started".to_owned(), value: started, inline: true });
        let out = Embed {
            author: stream.title.clone(),
            color: EMBED_COLOR,
            title: Some(url.clone()),
            url: Some(url),
            description,
            footer: self.set_footer(event),
            fields,
        };
        assert(out@.fields =~= stream_fields(stream@, game@));
        out
    }
}

impl StreamWatcher {
    /// Appends the segment that begins at `now` in a recording begun at
    /// `start`, for the category and the recording that the lookups stand
    /// for. A lookup that met a gap in upstream data gives way to a default;
    /// a fatal one fails with its error and appends nothing.
    pub fn add_segment(
        &mut self,
        start: u64,
        now: u64,
        game: Result<Game, RequestError>,
        video: Result<Video, RequestError>,
    ) -> (out: Result<(), RequestError>)
        ensures
            match out {
                Err(e) => {
                    &&& first_error(fatal_error(game), fatal_error(video)) == Some(e@)
                    &&& *final(self) == *old(self)
                },
                Ok(_) => {
                    &&& first_error(fatal_error(game), fatal_error(video)) is None
                    &&& final(self)@ == (WatcherView {
                        segments: old(self)@.segments.push(
                            SegmentView {
                                game: game_or_default(game),
                                position: elapsed(start, now),
                                video_id: found_video_id(video),
                            },
                        ),
                        ..old(self)@
                    })
                    &&& final(self).config == old(self).config
                    &&& final(self).segments.len() == old(self).segments.len() + 1
                },
            },
    {
        if let Some(e) = take_fatal(&game) {
            return Err(e);
        }
        if let Some(e) = take_fatal(&video) {
            return Err(e);
        }
        let game = match game {
            Ok(g) => g,
            Err(_) => Game::empty(),
        };
        let segment = StreamSegment::from(start, now, game, video);
        proof {
            lemma_segment_views_push(self.segments@, segment);
        }
        self.segments.push(segment);
        Ok(())
    }

    /// An idle channel was seen live: the session begins with one segment at
    /// offset zero, and a "went live" notification is due unless suppressed.
    /// A fatal lookup error fails the event and leaves the state as it was.
    pub fn on_go_live(
        &mut self,
        stream: &Stream,
        game: Result<Game, RequestError>,
        video: Result<Video, RequestError>,
    ) -> (out: Result<Option<Notification>, RequestError>)
        ensures
            match out {
                Err(e) => {
                    &&& first_error(fatal_error(game), fatal_error(video)) == Some(e@)
                    &&& *final(self) == *old(self)
                },
                Ok(n) => {
                    &&& first_error(fatal_error(game), fatal_error(video)) is None
                    &&& final(self)@ == went_live(
                        old(self)@,
                        stream@,
                        game_or_default(game),
                        found_video_id(video),
                    )
                    &&& final(self).config == old(self).config
                    &&& opt_notification(n) == live_notification(
                        &*old(self).config,
                        stream@,
                        game_or_default(game),
                    )
                },
            },
    {
        match self.add_segment(stream.started_at, stream.started_at, game, video) {
            Err(e) => {
                return Err(e);
            },
            Ok(_) => {},
        }
        self.offline_timestamp = None;
        self.start_timestamp = stream.started_at;
        self.user_id = stream.user_id.clone();
        self.stream_id = stream.id.clone();
        let last: usize = self.segments.len() - 1;
        assert(self@.segments.last() == self.segments@[last as int]@);
        if self.is_skipped(EventName::Live) {
            return Ok(None);
        }
        let shown = self.segments[last].game.clone();
        let embed = self.create_embed(EventName::Live, stream, &shown, None);
        let mut content = self.get_mention(EventName::Live);
        push_char(&mut content, ' ');
        push_text(&mut content, stream.user_name.as_str());
        if shown.is_empty() {
            push_text(&mut content, " is live!");
        } else {
            push_text(&mut content, " is live with **");
            push_text(&mut content, shown.name.as_str());
            push_text(&mut content, "**!");
        }
        assert(content@ =~= live_content(&*self.config, stream@, shown@));
        Ok(
            Some(
                Notification {
                    event: EventName::Live,
                    content,
                    embed,
                    thumbnail_url: Some(stream.thumbnail_url.clone()),
                },
            ),
        )
    }

    /// A tracked channel was seen live. Unless the broadcast or the category
    /// changed, only the deadline is cleared. Otherwise a segment is appended,
    /// and a "changed category" notification is due where the category
    /// changed and that type is not suppressed. The lookups are read only
    /// where something changed; a fatal one fails the event and leaves the
    /// state as it was. The flag tells whether a segment was appended.
    pub fn on_update(
        &mut self,
        stream: &Stream,
        now: Timestamp,
        game: Result<Game, RequestError>,
        video: Result<Video, RequestError>,
    ) -> (out: Result<(bool, Option<Notification>), RequestError>)
        requires
            old(self).segments.len() > 0,
        ensures
            match out {
                Err(e) => {
                    &&& vod_changed(old(self)@, stream@) || game_changed(old(self)@, stream@)
                    &&& first_error(fatal_error(game), fatal_error(video)) == Some(e@)
                    &&& *final(self) == *old(self)
                },
                Ok((appended, n)) => {
                    &&& appended == (vod_changed(old(self)@, stream@) || game_changed(
                        old(self)@,
                        stream@,
                    ))
                    &&& appended ==> first_error(fatal_error(game), fatal_error(video)) is None
                    &&& final(self)@ == seen_live(
                        old(self)@,
                        stream@,
                        now.0,
                        game_or_default(game),
                        found_video_id(video),
                    )
                    &&& final(self).config == old(self).config
                    &&& opt_notification(n) == (if appended {
                        update_notification(
                            &*old(self).config,
                            old(self)@,
                            stream@,
                            now.0,
                            game_or_default(game),
                            found_video_id(video),
                        )
                    } else {
                        None
                    })
                },
            },
    {
        let before: usize = self.segments.len() - 1;
        assert(self@.segments.last() == self.segments@[before as int]@);
        let vod_change = !same_text(stream.id.as_str(), self.stream_id.as_str());
        let game_change = !same_text(
            stream.game_id.as_str(),
            self.segments[before].game.id.as_str(),
        );
        if !vod_change && !game_change {
            self.offline_timestamp = None;
            return Ok((false, None));
        }
        // a new recording is watched from its beginning
        let start: u64 = if vod_change {
            now.secs()
        } else {
            self.start_timestamp
        };
        match self.add_segment(start, now.secs(), game, video) {
            Err(e) => {
                return Err(e);
            },
            Ok(_) => {},
        }
        self.offline_timestamp = None;
        if vod_change {
            self.stream_id = stream.id.clone();
        }
        let last: usize = self.segments.len() - 1;
        assert(self@.segments.last() == self.segments@[last as int]@);
        assert(self@ == seen_live(
            old(self)@,
            stream@,
            now.0,
            game_or_default(game),
            found_video_id(video),
        ));
        if !game_change || self.is_skipped(EventName::Update) {
            return Ok((true, None));
        }
        let shown = self.segments[last].game.clone();
        let hint = if self.segments[last].video_id.as_str().is_empty() {
            None
        } else {
            let link = self.segments[last].vod_link();
            let mut text = String::new();
            push_text(&mut text, "Start watching at ");
            push_text(&mut text, link.as_str());
            assert(text@ =~= "Start watching at "@ + vod_link_text(self.segments@[last as int]@));
            Some(text)
        };
        let embed = self.create_embed(EventName::Update, stream, &shown, hint);
        let mut content = self.get_mention(EventName::Update);
        push_char(&mut content, ' ');
        push_text(&mut content, stream.user_name.as_str());
        push_text(&mut content, " switched game to **");
        push_text(&mut content, shown.name.as_str());
        push_text(&mut content, "**!");
        assert(content@ =~= update_content(&*self.config, stream@, shown@));
        Ok(
            (
                true,
                Some(
                    Notification {
                        event: EventName::Update,
                        content,
                        embed,
                        thumbnail_url: Some(stream.thumbnail_url.clone()),
                    },
                ),
            ),
        )
    }
}

/// How many top clips a closing notification lists: as configured, five at most.
pub open spec fn clip_count(cfg: &Config) -> u8 {
    if cfg.twitch.top_clips > 5 {
        5
    } else {
        cfg.twitch.top_clips
    }
}

/// The seconds between the first offline observation and the end of the session.
pub open spec fn grace_seconds(cfg: &Config) -> nat {
    (60 * cfg.twitch.offline_grace_period) as nat
}

/// Whether the grace period of `w` has run out at `now`.
pub open spec fn deadline_reached(w: WatcherView, now: u64) -> bool {
    match w.offline_timestamp {
        Some(deadline) => deadline <= now,
        None => false,
    }
}

/// The state after a tracked channel was seen offline before its deadline:
/// the deadline is set unless it already is.
pub open spec fn waiting(cfg: &Config, w: WatcherView, now: u64) -> WatcherView {
    WatcherView {
        offline_timestamp: match w.offline_timestamp {
            Some(deadline) => Some(deadline),
            None => Some((now + grace_seconds(cfg)) as u64),
        },
        ..w
    }
}

/// The state after the session ended.
pub open spec fn cleared(w: WatcherView) -> WatcherView {
    WatcherView { segments: Seq::empty(), offline_timestamp: None, ..w }
}

/// The error of a lookup, if it failed at all.
pub open spec fn any_error<T>(r: Result<T, RequestError>) -> Option<crate::error::RequestErrorView> {
    match r {
        Ok(_) => None,
        Err(e) => Some(e@),
    }
}

/// Whether the first segment of `w` names a recording.
pub open spec fn has_first_recording(w: WatcherView) -> bool {
    w.segments.len() > 0 && w.segments[0].video_id.len() > 0
}

/// The error that fails the closing of a session, if any: none where closing
/// notifications are suppressed; else a fatal error of the lookup of the first
/// recording (where the first segment names one), or of the lookup of all
/// recordings, or any error of the lookup of clips (where clips are listed).
pub open spec fn closing_error(
    cfg: &Config,
    w: WatcherView,
    first_vod: Result<Video, RequestError>,
    vods: Result<Vec<Video>, RequestError>,
    clips: Result<Vec<Clip>, RequestError>,
) -> Option<crate::error::RequestErrorView> {
    if is_skipped(cfg, EventName::Vod) {
        None
    } else {
        first_error(
            first_error(
                if has_first_recording(w) {
                    fatal_error(first_vod)
                } else {
                    None
                },
                fatal_error(vods),
            ),
            if clip_count(cfg) > 0 {
                any_error(clips)
            } else {
                None
            },
        )
    }
}

/// The recording that the closing notification presents: that of the first
/// segment, where it names one and the lookup found it.
pub open spec fn first_recording(w: WatcherView, first_vod: Result<Video, RequestError>) -> Option<
    crate::model::VideoView,
> {
    if has_first_recording(w) {
        match first_vod {
            Ok(v) => Some(v@),
            Err(_) => None,
        }
    } else {
        None
    }
}

/// The durations of `vods`.
pub open spec fn durations(vods: Seq<Video>) -> Seq<VideoDuration> {
    vods.map_values(|v: Video| v.duration)
}

/// The total length of the session's recordings, zero where their lookup met a gap.
pub open spec fn recorded_total(vods: Result<Vec<Video>, RequestError>) -> u32 {
    match vods {
        Ok(v) => duration_total(durations(v@)) as u32,
        Err(_) => 0,
    }
}

/// The clips that the closing notification lists.
pub open spec fn shown_clips(cfg: &Config, clips: Result<Vec<Clip>, RequestError>) -> Seq<ClipView> {
    if clip_count(cfg) > 0 {
        match clips {
            Ok(c) => clip_views(c@),
            Err(_) => Seq::empty(),
        }
    } else {
        Seq::empty()
    }
}

/// One entry of the index of timestamps: the segment's timestamp and its category.
pub open spec fn index_entry(seg: SegmentView) -> Seq<char> {
    vod_link_text(seg).push(' ') + seg.game.name
}

/// The entries of the index of timestamps, one per segment, in order.
pub open spec fn index_entries(segments: Seq<SegmentView>) -> Seq<Seq<char>> {
    segments.map_values(|seg: SegmentView| index_entry(seg))
}

/// The fields that hold the index of timestamps.
pub open spec fn index_fields(chunks: Seq<Seq<char>>) -> Seq<EmbedFieldView> {
    chunks.map_values(
        |chunk: Seq<char>| EmbedFieldView { name: "Timestamps"@, value: chunk, inline: true },
    )
}

/// The fields of a closing notification: the index of timestamps, then the
/// top clips where there are any.
pub open spec fn vod_fields(w: WatcherView, clips: Seq<ClipView>) -> Seq<EmbedFieldView> {
    index_fields(timestamp_index(index_entries(w.segments))) + (if clips.len() > 0 {
        seq![
            EmbedFieldView {
                name: "Top Clips"@,
                value: clip_lines(clips, clips.len() as int),
                inline: false,
            },
        ]
    } else {
        Seq::empty()
    })
}

/// The text of a closing notification.
pub open spec fn vod_content(cfg: &Config, w: WatcherView, total: u32) -> Seq<char> {
    (mention_text(cfg, EventName::Vod) + " VOD from "@ + w.user_name + " ["@ + duration_text(
        total,
    )).push(']')
}

/// The closing notification of the session of `w`.
pub open spec fn vod_notification(
    cfg: &Config,
    w: WatcherView,
    recording: Option<crate::model::VideoView>,
    total: u32,
    clips: Seq<ClipView>,
) -> NotificationView {
    NotificationView {
        event: EventName::Vod,
        content: vod_content(cfg, w, total),
        embed: EmbedView {
            author: match recording {
                Some(v) => v.title,
                None => "<Video Removed>"@,
            },
            color: EMBED_COLOR,
            title: match recording {
                Some(v) => Some(v.url),
                None => None,
            },
            url: match recording {
                Some(v) => Some(v.url),
                None => None,
            },
            description: None,
            footer: footer_text(cfg, EventName::Vod),
            fields: vod_fields(w, clips),
        },
        thumbnail_url: match recording {
            Some(v) => if v.thumbnail_url.len() > 0 {
                Some(v.thumbnail_url)
            } else {
                None
            },
            None => None,
        },
    }
}

/// The total length of `vods`, modulo 2^32.
pub fn total_duration(vods: &Vec<Video>) -> (out: VideoDuration)
    ensures
        out.0 == duration_total(durations(vods@)),
{
    let mut all: Vec<VideoDuration> = Vec::new();
    let mut i: usize = 0;
    while i < vods.len()
        invariant
            i <= vods.len(),
            all@ == durations(vods@.subrange(0, i as int)),
        decreases vods.len() - i,
    {
        all.push(VideoDuration(vods[i].duration.0));
        assert(all@ =~= durations(vods@.subrange(0, i + 1)));
        i = i + 1;
    }
    assert(vods@.subrange(0, vods.len() as int) =~= vods@);
    VideoDuration::sum(&all)
}

impl StreamWatcher {
    /// The entries of the index of timestamps, one per segment.
    pub fn timestamps(&self) -> (out: Vec<String>)
        ensures
            texts(out@) == index_entries(self@.segments),
    {
        let mut out: Vec<String> = Vec::new();
        let mut i: usize = 0;
        while i < self.segments.len()
            invariant
                i <= self.segments.len(),
                texts(out@) == index_entries(self@.segments.subrange(0, i as int)),
            decreases self.segments.len() - i,
        {
            let seg = &self.segments[i];
            assert(self@.segments[i as int] == seg@);
            let mut entry = seg.vod_link();
            push_char(&mut entry, ' ');
            push_text(&mut entry, seg.game.name.as_str());
            assert(entry@ =~= index_entry(seg@));
            let ghost before = texts(out@);
            out.push(entry);
            assert(texts(out@) =~= before.push(index_entry(seg@)));
            assert(texts(out@) =~= index_entries(self@.segments.subrange(0, i + 1)));
            i = i + 1;
        }
        assert(self@.segments.subrange(0, self.segments.len() as int) =~= self@.segments);
        out
    }
}

/// The fields that hold the index of timestamps.
pub fn fields_of_index(chunks: &Vec<String>) -> (out: Vec<EmbedField>)
    ensures
        out@.map_values(|f: EmbedField| f@) == index_fields(texts(chunks@)),
{
    let mut out: Vec<EmbedField> = Vec::new();
    let mut i: usize = 0;
    while i < chunks.len()
        invariant
            i <= chunks.len(),
            out@.map_values(|f: EmbedField| f@) == index_fields(
                texts(chunks@.subrange(0, i as int)),
            ),
        decreases chunks.len() - i,
    {
        let ghost before = out@.map_values(|f: EmbedField| f@);
        let field = EmbedField {
            name: "Timestamps".to_owned(),
            value: chunks[i].clone(),
            inline: true,
        };
        out.push(field);
        assert(out@.map_values(|f: EmbedField| f@) =~= before.push(field@));
        assert(out@.map_values(|f: EmbedField| f@) =~= index_fields(
            texts(chunks@.subrange(0, i + 1)),
        ));
        i = i + 1;
    }
    assert(chunks@.subrange(0, chunks.len() as int) =~= chunks@);
    out
}

impl StreamWatcher {
    /// How many top clips a closing notification lists.
    pub fn clip_count(&self) -> (out: u8)
        ensures
            out == clip_count(&*self.config),
    {
        if self.config.twitch.top_clips > 5 {
            5
        } else {
            self.config.twitch.top_clips
        }
    }

    /// A tracked channel was seen offline. The first such observation sets
    /// the deadline; until the deadline is reached nothing changes; once it is
    /// reached the session ends: the segments and the deadline are cleared and
    /// a closing notification is due unless suppressed. The lookups are read
    /// only where a closing notification is built; an error that fails the
    /// event leaves the state as it was. The flag tells whether the session ended.
    pub fn on_offline(
        &mut self,
        now: Timestamp,
        first_vod: Result<Video, RequestError>,
        vods: Result<Vec<Video>, RequestError>,
        clips: Result<Vec<Clip>, RequestError>,
    ) -> (out: Result<(bool, Option<Notification>), RequestError>)
        requires
            old(self).segments.len() > 0,
            old(self).offline_timestamp is None ==> now.0 + grace_seconds(&*old(self).config)
                <= u64::MAX,
        ensures
            final(self).config == old(self).config,
            match out {
                Err(e) => {
                    &&& deadline_reached(old(self)@, now.0)
                    &&& closing_error(&*old(self).config, old(self)@, first_vod, vods, clips)
                        == Some(e@)
                    &&& *final(self) == *old(self)
                },
                Ok((ended, n)) => {
                    &&& ended == deadline_reached(old(self)@, now.0)
                    &&& !ended ==> {
                        &&& final(self)@ == waiting(&*old(self).config, old(self)@, now.0)
                        &&& n is None
                    }
                    &&& ended ==> {
                        &&& closing_error(&*old(self).config, old(self)@, first_vod, vods, clips)
                            is None
                        &&& final(self)@ == cleared(old(self)@)
                        &&& opt_notification(n) == (if is_skipped(
                            &*old(self).config,
                            EventName::Vod,
                        ) {
                            None
                        } else {
                            Some(
                                vod_notification(
                                    &*old(self).config,
                                    old(self)@,
                                    first_recording(old(self)@, first_vod),
                                    recorded_total(vods),
                                    shown_clips(&*old(self).config, clips),
                                ),
                            )
                        })
                    }
                },
            },
    {
        match self.offline_timestamp {
            None => {
                let offset: u64 = 60 * (self.config.twitch.offline_grace_period as u64);
                self.offline_timestamp = Some(now.add(offset));
                return Ok((false, None));
            },
            Some(deadline) => {
                if deadline.is_after(&now) {
                    return Ok((false, None));
                }
            },
        }
        if self.is_skipped(EventName::Vod) {
            self.segments.clear();
            self.offline_timestamp = None;
            assert(self@.segments =~= Seq::<SegmentView>::empty());
            return Ok((true, None));
        }
        assert(self@.segments[0] == self.segments@[0]@);
        let has_first = !self.segments[0].video_id.as_str().is_empty();
        if has_first {
            if let Some(e) = take_fatal(&first_vod) {
                return Err(e);
            }
        }
        if let Some(e) = take_fatal(&vods) {
            return Err(e);
        }
        let num = self.clip_count();
        if num > 0 {
            if let Err(e) = &clips {
                return Err(e.duplicate());
            }
        }
        let recording: Option<Video> = if has_first {
            match first_vod {
                Ok(v) => Some(v),
                Err(_) => None,
            }
        } else {
            None
        };
        let total = match &vods {
            Ok(v) => total_duration(v),
            Err(_) => VideoDuration(0),
        };
        let length = total.to_string();
        let mut content = self.get_mention(EventName::Vod);
        push_text(&mut content, " VOD from ");
        push_text(&mut content, self.user_name.as_str());
        push_text(&mut content, " [");
        push_text(&mut content, length.as_str());
        push_char(&mut content, ']');
        assert(content@ =~= vod_content(&*self.config, self@, total.0));

        let stamps = self.timestamps();
        let chunks = build_index(&stamps);
        let mut fields = fields_of_index(&chunks);
        let ghost index_part = fields@.map_values(|f: EmbedField| f@);
        if num > 0 {
            match &clips {
                Ok(c) => {
                    if c.len() > 0 {
                        let field = EmbedField {
                            name: "Top Clips".to_owned(),
                            value: top_clips_text(c),
                            inline: false,
                        };
                        fields.push(field);
                        assert(fields@.map_values(|f: EmbedField| f@) =~= index_part.push(field@));
                    }
                },
                Err(_) => {},
            }
        }
        assert(fields@.map_values(|f: EmbedField| f@) =~= vod_fields(
            self@,
            shown_clips(&*self.config, clips),
        ));
        let footer = self.set_footer(EventName::Vod);
        let (author, link, thumbnail_url) = match &recording {
            Some(v) => (v.title.clone(), Some(v.url.clone()), v.get_thumbnail()),
            None => ("<Video Removed>".to_owned(), None, None),
        };
        let title = match &link {
            Some(l) => Some(l.clone()),
            None => None,
        };
        let embed = Embed {
            author,
            color: EMBED_COLOR,
            title,
            url: link,
            description: None,
            footer,
            fields,
        };
        let note = Notification { event: EventName::Vod, content, embed, thumbnail_url };
        assert(note@ == vod_notification(
            &*self.config,
            self@,
            first_recording(self@, first_vod),
            recorded_total(vods),
            shown_clips(&*self.config, clips),
        ));
        self.segments.clear();
        self.offline_timestamp = None;
        assert(self@.segments =~= Seq::<SegmentView>::empty());
        Ok((true, Some(note)))
    }
}

/// Mathematical value of a [`StreamUpdate`].
pub enum EventView {
    Live(StreamView),
    Offline,
}

impl View for StreamUpdate {
    type V = EventView;

    open spec fn view(&self) -> EventView {
        match self {
            StreamUpdate::Live(stream) => EventView::Live((**stream)@),
            StreamUpdate::Offline => EventView::Offline,
        }
    }
}

/// What the upstream API returned for the lookups that an event may call for.
/// A lookup that the event does not call for is not read, whatever it holds.
#[derive(Debug)]
pub struct Lookups {
    /// The category of the incoming snapshot.
    pub game: Result<Game, RequestError>,
    /// The recording of the incoming snapshot's session.
    pub video: Result<Video, RequestError>,
    /// The recording that the first segment names.
    pub first_vod: Result<Video, RequestError>,
    /// The recordings that the segments name.
    pub vods: Result<Vec<Video>, RequestError>,
    /// The top clips of the channel since the session began.
    pub clips: Result<Vec<Clip>, RequestError>,
}

/// Whether `event` opens a segment in the state `w`: the channel is seen live
/// and was idle, or its broadcast or category changed.
pub open spec fn opens_segment(w: WatcherView, event: EventView) -> bool {
    match event {
        EventView::Live(stream) => w.segments.len() == 0 || vod_changed(w, stream) || game_changed(
            w,
            stream,
        ),
        EventView::Offline => false,
    }
}

/// Whether `event` sets the deadline of `w`: it is the first offline
/// observation of a tracked session.
pub open spec fn sets_deadline(w: WatcherView, event: EventView) -> bool {
    event is Offline && w.segments.len() > 0 && w.offline_timestamp is None
}

/// Whether `event` ends the session of `w` at `now`.
pub open spec fn ends_session(w: WatcherView, event: EventView, now: u64) -> bool {
    event is Offline && w.segments.len() > 0 && deadline_reached(w, now)
}

/// The error with which `event` fails in the state `w`, if it does.
pub open spec fn event_error(
    cfg: &Config,
    w: WatcherView,
    event: EventView,
    now: u64,
    found: Lookups,
) -> Option<crate::error::RequestErrorView> {
    if opens_segment(w, event) {
        first_error(fatal_error(found.game), fatal_error(found.video))
    } else if ends_session(w, event, now) {
        closing_error(cfg, w, found.first_vod, found.vods, found.clips)
    } else {
        None
    }
}

/// The state that `event` leads to from `w`, where it does not fail.
pub open spec fn next_state(
    cfg: &Config,
    w: WatcherView,
    event: EventView,
    now: u64,
    found: Lookups,
) -> WatcherView {
    match event {
        EventView::Live(stream) => if w.segments.len() == 0 {
            went_live(w, stream, game_or_default(found.game), found_video_id(found.video))
        } else {
            seen_live(w, stream, now, game_or_default(found.game), found_video_id(found.video))
        },
        EventView::Offline => if w.segments.len() == 0 {
            w
        } else if deadline_reached(w, now) {
            cleared(w)
        } else {
            waiting(cfg, w, now)
        },
    }
}

/// What `event` does to the watcher in the state `w`, where it does not
/// fail. A live channel asks for its state to be persisted where a segment
/// was opened. An offline observation ends the session once the deadline is
/// reached, asks for the state to be persisted where it sets the deadline,
/// and changes nothing while the deadline is awaited.
pub open spec fn outcome(w: WatcherView, event: EventView, now: u64) -> WatcherState {
    match event {
        EventView::Live(_) => if opens_segment(w, event) {
            WatcherState::Updated
        } else {
            WatcherState::Unchanged
        },
        EventView::Offline => if w.segments.len() == 0 {
            WatcherState::Unchanged
        } else if deadline_reached(w, now) {
            WatcherState::Ended
        } else if w.offline_timestamp is Some {
            WatcherState::Unchanged
        } else {
            WatcherState::Updated
        },
    }
}

/// The notification that `event` gives rise to in the state `w`, where it does not fail.
pub open spec fn notification_of(
    cfg: &Config,
    w: WatcherView,
    event: EventView,
    now: u64,
    found: Lookups,
) -> Option<NotificationView> {
    match event {
        EventView::Live(stream) => if w.segments.len() == 0 {
            live_notification(cfg, stream, game_or_default(found.game))
        } else if opens_segment(w, event) {
            update_notification(
                cfg,
                w,
                stream,
                now,
                game_or_default(found.game),
                found_video_id(found.video),
            )
        } else {
            None
        },
        EventView::Offline => if ends_session(w, event, now) && !is_skipped(cfg, EventName::Vod) {
            Some(
                vod_notification(
                    cfg,
                    w,
                    first_recording(w, found.first_vod),
                    recorded_total(found.vods),
                    shown_clips(cfg, found.clips),
                ),
            )
        } else {
            None
        },
    }
}

impl StreamWatcher {
    /// Handles one event at the instant `now`, with what the lookups returned.
    ///
    /// An event that fails leaves the state as it was. Otherwise the state
    /// moves on as [`next_state`] says, the result tells what that means for
    /// the watcher's owner, and the notification, if any, is to be sent.
    /// Only an offline observation ends a session, and a session that ended
    /// leaves the watcher idle; any other event keeps every segment, and a
    /// live channel always holds one. The instant has to leave room for the
    /// grace period only where the event sets the deadline.
    pub fn update(&mut self, event: StreamUpdate, now: Timestamp, found: Lookups) -> (out: Result<
        (WatcherState, Option<Notification>),
        RequestError,
    >)
        requires
            sets_deadline(old(self)@, event@) ==> now.0 + grace_seconds(&*old(self).config)
                <= u64::MAX,
        ensures
            final(self).config == old(self).config,
            match out {
                Err(e) => {
                    &&& event_error(&*old(self).config, old(self)@, event@, now.0, found) == Some(
                        e@,
                    )
                    &&& *final(self) == *old(self)
                },
                Ok((state, n)) => {
                    &&& event_error(&*old(self).config, old(self)@, event@, now.0, found) is None
                    &&& final(self)@ == next_state(
                        &*old(self).config,
                        old(self)@,
                        event@,
                        now.0,
                        found,
                    )
                    &&& state == outcome(old(self)@, event@, now.0)
                    &&& opt_notification(n) == notification_of(
                        &*old(self).config,
                        old(self)@,
                        event@,
                        now.0,
                        found,
                    )
                    &&& state is Ended ==> is_idle(final(self)@)
                    &&& state is Ended ==> event@ is Offline
                    &&& event@ is Live ==> final(self)@.segments.len() > 0
                    &&& !(state is Ended) ==> final(self)@.segments.len() >= old(
                        self,
                    )@.segments.len()
                    &&& well_formed(old(self)@) ==> well_formed(final(self)@)
                },
            },
    {
        let Lookups { game, video, first_vod, vods, clips } = found;
        match event {
            StreamUpdate::Live(stream) => {
                if self.segments.len() == 0 {
                    match self.on_go_live(&*stream, game, video) {
                        Ok(n) => Ok((WatcherState::Updated, n)),
                        Err(e) => Err(e),
                    }
                } else {
                    match self.on_update(&*stream, now, game, video) {
                        Ok((appended, n)) => if appended {
                            Ok((WatcherState::Updated, n))
                        } else {
                            Ok((WatcherState::Unchanged, n))
                        },
                        Err(e) => Err(e),
                    }
                }
            },
            StreamUpdate::Offline => {
                if self.segments.len() > 0 {
                    let awaited = self.offline_timestamp.is_some();
                    match self.on_offline(now, first_vod, vods, clips) {
                        Ok((ended, n)) => if ended {
                            Ok((WatcherState::Ended, n))
                        } else if awaited {
                            Ok((WatcherState::Unchanged, n))
                        } else {
                            Ok((WatcherState::Updated, n))
                        },
                        Err(e) => Err(e),
                    }
                } else {
                    Ok((WatcherState::Unchanged, None))
                }
            },
        }
    }
}

/// What to ask the upstream API before the session is closed.
#[derive(Debug)]
pub struct ClosingPlan {
    /// The recording to present, where the first segment names one.
    pub first_video: Option<String>,
    /// The recordings whose lengths are summed: one id per segment, in order.
    pub videos: Vec<String>,
    /// How many top clips to ask for; none where zero.
    pub clips: u8,
    /// Whose clips to ask for.
    pub user_id: String,
    /// Since when clips count.
    pub since: u64,
}

/// The lookups that an event calls for.
#[derive(Debug)]
pub enum Plan {
    /// None.
    Nothing,
    /// The category and the recording of the incoming snapshot.
    Segment,
    /// Those of a closing notification.
    Closing(ClosingPlan),
}

/// The recording ids of `segments`, in order.
pub open spec fn video_ids(segments: Seq<SegmentView>) -> Seq<Seq<char>> {
    segments.map_values(|seg: SegmentView| seg.video_id)
}

impl StreamWatcher {
    /// Tells which lookups `event` calls for at `now`, so that they can be
    /// made before [`StreamWatcher::update`] is called.
    pub fn plan(&self, event: &StreamUpdate, now: Timestamp) -> (out: Plan)
        ensures
            out is Segment <==> opens_segment(self@, event@),
            out is Closing <==> ends_session(self@, event@, now.0) && !is_skipped(
                &*self.config,
                EventName::Vod,
            ),
            match out {
                Plan::Closing(c) => {
                    &&& opt_text(c.first_video) == (if has_first_recording(self@) {
                        Some(self@.segments[0].video_id)
                    } else {
                        None
                    })
                    &&& texts(c.videos@) == video_ids(self@.segments)
                    &&& c.clips == clip_count(&*self.config)
                    &&& c.user_id@ == self@.user_id
                    &&& c.since == self@.start_timestamp
                },
                _ => true,
            },
    {
        match event {
            StreamUpdate::Live(stream) => {
                if self.segments.len() == 0 {
                    return Plan::Segment;
                }
                let last: usize = self.segments.len() - 1;
                assert(self@.segments.last() == self.segments@[last as int]@);
                if !same_text(stream.id.as_str(), self.stream_id.as_str()) || !same_text(
                    stream.game_id.as_str(),
                    self.segments[last].game.id.as_str(),
                ) {
                    Plan::Segment
                } else {
                    Plan::Nothing
                }
            },
            StreamUpdate::Offline => {
                if self.segments.len() == 0 {
                    return Plan::Nothing;
                }
                let reached = match self.offline_timestamp {
                    Some(deadline) => !deadline.is_after(&now),
                    None => false,
                };
                if !reached || self.is_skipped(EventName::Vod) {
                    return Plan::Nothing;
                }
                assert(self@.segments[0] == self.segments@[0]@);
                let first_video = if self.segments[0].video_id.as_str().is_empty() {
                    None
                } else {
                    Some(self.segments[0].video_id.clone())
                };
                let mut videos: Vec<String> = Vec::new();
                let mut i: usize = 0;
                while i < self.segments.len()
                    invariant
                        i <= self.segments.len(),
                        texts(videos@) == video_ids(self@.segments.subrange(0, i as int)),
                    decreases self.segments.len() - i,
                {
                    let ghost before = texts(videos@);
                    assert(self@.segments[i as int] == self.segments@[i as int]@);
                    videos.push(self.segments[i].video_id.clone());
                    assert(texts(videos@) =~= before.push(self@.segments[i as int].video_id));
                    assert(texts(videos@) =~= video_ids(self@.segments.subrange(0, i + 1)));
                    i = i + 1;
                }
                assert(self@.segments.subrange(0, self.segments.len() as int) =~= self@.segments);
                Plan::Closing(
                    ClosingPlan {
                        first_video,
                        videos,
                        clips: self.clip_count(),
                        user_id: self.user_id.clone(),
                        since: self.start_timestamp,
                    },
                )
            },
        }
    }
}

/// An event that calls for no lookup never fails, and what it does is the
/// same whatever the lookups hold.
pub proof fn lemma_unplanned_lookups_are_not_read(
    cfg: &Config,
    w: WatcherView,
    event: EventView,
    now: u64,
    a: Lookups,
    b: Lookups,
)
    requires
        !opens_segment(w, event),
        !(ends_session(w, event, now) && !is_skipped(cfg, EventName::Vod)),
    ensures
        event_error(cfg, w, event, now, a) is None,
        next_state(cfg, w, event, now, a) == next_state(cfg, w, event, now, b),
        notification_of(cfg, w, event, now, a) == notification_of(cfg, w, event, now, b),
{
}

/// A session that ends leaves the watcher idle, and no other event empties a
/// list of segments: a watcher that is torn down holds no segment, and one
/// that holds segments is never torn down.
pub proof fn lemma_ended_iff_segments_cleared(
    cfg: &Config,
    w: WatcherView,
    event: EventView,
    now: u64,
    found: Lookups,
)
    ensures
        outcome(w, event, now) is Ended ==> is_idle(next_state(cfg, w, event, now, found)),
        !(outcome(w, event, now) is Ended) ==> next_state(cfg, w, event, now, found).segments.len()
            >= w.segments.len(),
{
}

/// Every event keeps the deadline tied to a tracked session.
pub proof fn lemma_step_keeps_well_formed(
    cfg: &Config,
    w: WatcherView,
    event: EventView,
    now: u64,
    found: Lookups,
)
    requires
        well_formed(w),
    ensures
        well_formed(next_state(cfg, w, event, now, found)),
{
}

/// Seeing a tracked channel live again with the broadcast and the category
/// of its last segment appends no segment, sends nothing, calls for no
/// lookup, cannot fail and asks for nothing to be persisted, however often
/// it is repeated.
pub proof fn lemma_repeated_live_is_idempotent(
    cfg: &Config,
    w: WatcherView,
    stream: StreamView,
    now: u64,
    found: Lookups,
)
    requires
        w.segments.len() > 0,
        stream.id == w.stream_id,
        stream.game_id == w.segments.last().game.id,
    ensures
        ({
            let next = next_state(cfg, w, EventView::Live(stream), now, found);
            &&& next.segments == w.segments
            &&& next.stream_id == w.stream_id
            &&& next.segments.len() > 0
            &&& next.stream_id == stream.id
            &&& next.segments.last().game.id == stream.game_id
        }),
        notification_of(cfg, w, EventView::Live(stream), now, found) is None,
        outcome(w, EventView::Live(stream), now) is Unchanged,
        event_error(cfg, w, EventView::Live(stream), now, found) is None,
        !opens_segment(w, EventView::Live(stream)),
        !ends_session(w, EventView::Live(stream), now),
{
}

/// Once an event with a broadcast and a category was handled, and the
/// category found is the one asked for, a second event with the same two ids
/// appends no segment and sends nothing.
pub proof fn lemma_second_live_is_noop(
    cfg: &Config,
    w: WatcherView,
    first: StreamView,
    second: StreamView,
    now: u64,
    later: u64,
    found: Lookups,
    found_later: Lookups,
)
    requires
        second.id == first.id,
        second.game_id == first.game_id,
        game_or_default(found.game).id == first.game_id,
    ensures
        ({
            let mid = next_state(cfg, w, EventView::Live(first), now, found);
            let end = next_state(cfg, mid, EventView::Live(second), later, found_later);
            &&& end.segments == mid.segments
            &&& notification_of(cfg, mid, EventView::Live(second), later, found_later) is None
            &&& outcome(mid, EventView::Live(second), later) is Unchanged
        }),
{
    let mid = next_state(cfg, w, EventView::Live(first), now, found);
    if w.segments.len() > 0 && !vod_changed(w, first) && !game_changed(w, first) {
        assert(mid.segments == w.segments);
    }
}

/// The first offline observation of a live channel neither ends the session
/// nor touches its segments; it sets the deadline to the grace period from
/// now, which is a change to persist.
pub proof fn lemma_first_offline_starts_grace(cfg: &Config, w: WatcherView, now: u64, found: Lookups)
    requires
        is_live(w),
        now + grace_seconds(cfg) <= u64::MAX,
    ensures
        ({
            let next = next_state(cfg, w, EventView::Offline, now, found);
            &&& next.segments == w.segments
            &&& next.offline_timestamp == Some((now + grace_seconds(cfg)) as u64)
            &&& in_grace(next)
        }),
        outcome(w, EventView::Offline, now) is Updated,
        notification_of(cfg, w, EventView::Offline, now, found) is None,
        event_error(cfg, w, EventView::Offline, now, found) is None,
{
}

/// A channel that is seen live during its grace period stays tracked: the
/// session does not end, no segment is lost, and the deadline is cleared.
pub proof fn lemma_live_cancels_grace(
    cfg: &Config,
    w: WatcherView,
    stream: StreamView,
    now: u64,
    found: Lookups,
)
    requires
        in_grace(w),
    ensures
        ({
            let next = next_state(cfg, w, EventView::Live(stream), now, found);
            &&& is_live(next)
            &&& w.segments.is_prefix_of(next.segments)
        }),
        !(outcome(w, EventView::Live(stream), now) is Ended),
{
    let next = next_state(cfg, w, EventView::Live(stream), now, found);
    assert(next.segments.subrange(0, w.segments.len() as int) =~= w.segments);
}

/// During the grace period an offline observation ends the session exactly
/// when the deadline is reached: before it nothing changes, nothing is sent
/// and nothing is to be persisted; from it on the watcher becomes idle.
pub proof fn lemma_offline_ends_at_deadline(
    cfg: &Config,
    w: WatcherView,
    start: u64,
    now: u64,
    found: Lookups,
)
    requires
        w.segments.len() > 0,
        w.offline_timestamp == Some((start + grace_seconds(cfg)) as u64),
        start + grace_seconds(cfg) <= u64::MAX,
    ensures
        now < start + grace_seconds(cfg) ==> {
            &&& outcome(w, EventView::Offline, now) is Unchanged
            &&& event_error(cfg, w, EventView::Offline, now, found) is None
            &&& next_state(cfg, w, EventView::Offline, now, found) == w
            &&& notification_of(cfg, w, EventView::Offline, now, found) is None
        },
        now >= start + grace_seconds(cfg) ==> {
            &&& outcome(w, EventView::Offline, now) is Ended
            &&& is_idle(next_state(cfg, w, EventView::Offline, now, found))
        },
{
}

/// What is persisted of a watcher: its state without the settings.
#[derive(Debug)]
pub struct PersistedRecord {
    pub user_name: String,
    pub user_id: String,
    pub stream_id: String,
    pub segments: Vec<StreamSegment>,
    pub start_timestamp: u64,
    pub offline_timestamp: Option<Timestamp>,
}

/// Mathematical value of a [`PersistedRecord`].
pub struct RecordView {
    pub user_name: Seq<char>,
    pub user_id: Seq<char>,
    pub stream_id: Seq<char>,
    pub segments: Seq<SegmentView>,
    pub start_timestamp: u64,
    pub offline_timestamp: Option<u64>,
}

impl View for PersistedRecord {
    type V = RecordView;

    open spec fn view(&self) -> RecordView {
        RecordView {
            user_name: self.user_name@,
            user_id: self.user_id@,
            stream_id: self.stream_id@,
            segments: segment_views(self.segments@),
            start_timestamp: self.start_timestamp,
            offline_timestamp: match self.offline_timestamp {
                Some(t) => Some(t.0),
                None => None,
            },
        }
    }
}

/// The record that is persisted of the state `w`.
pub open spec fn record_of(w: WatcherView) -> RecordView {
    RecordView {
        user_name: w.user_name,
        user_id: w.user_id,
        stream_id: w.stream_id,
        segments: w.segments,
        start_timestamp: w.start_timestamp,
        offline_timestamp: w.offline_timestamp,
    }
}

/// The state that the record `r` restores.
pub open spec fn restored_from(r: RecordView) -> WatcherView {
    WatcherView {
        user_name: r.user_name,
        user_id: r.user_id,
        stream_id: r.stream_id,
        segments: r.segments,
        start_timestamp: r.start_timestamp,
        offline_timestamp: r.offline_timestamp,
    }
}

/// A state that is persisted and restored is the same state: the segments,
/// the start of the session, the broadcast id and all else but the settings.
pub proof fn lemma_record_round_trip(w: WatcherView)
    ensures
        restored_from(record_of(w)) == w,
        restored_from(record_of(w)).segments == w.segments,
        restored_from(record_of(w)).start_timestamp == w.start_timestamp,
        restored_from(record_of(w)).stream_id == w.stream_id,
{
}

impl Clone for StreamSegment {
    fn clone(&self) -> (out: Self)
        ensures
            out@ == self@,
    {
        StreamSegment {
            game: self.game.clone(),
            position: self.position,
            video_id: self.video_id.clone(),
        }
    }
}

/// A copy of a list of segments.
pub fn copy_segments(segments: &Vec<StreamSegment>) -> (out: Vec<StreamSegment>)
    ensures
        segment_views(out@) == segment_views(segments@),
{
    let mut out: Vec<StreamSegment> = Vec::new();
    let mut i: usize = 0;
    while i < segments.len()
        invariant
            i <= segments.len(),
            segment_views(out@) == segment_views(segments@.subrange(0, i as int)),
        decreases segments.len() - i,
    {
        let ghost before = segment_views(out@);
        let seg = segments[i].clone();
        out.push(seg);
        assert(segment_views(out@) =~= before.push(seg@));
        assert(segment_views(out@) =~= segment_views(segments@.subrange(0, i + 1)));
        i = i + 1;
    }
    assert(segments@.subrange(0, segments.len() as int) =~= segments@);
    out
}

impl StreamWatcher {
    /// The record to persist of this watcher.
    pub fn to_record(&self) -> (out: PersistedRecord)
        ensures
            out@ == record_of(self@),
    {
        PersistedRecord {
            user_name: self.user_name.clone(),
            user_id: self.user_id.clone(),
            stream_id: self.stream_id.clone(),
            segments: copy_segments(&self.segments),
            start_timestamp: self.start_timestamp,
            offline_timestamp: self.offline_timestamp,
        }
    }

    /// The watcher that `record` restores, with the settings `config`.
    pub fn from_record(record: PersistedRecord, config: Arc<Config>) -> (out: Self)
        ensures
            out@ == restored_from(record@),
            out.config == config,
    {
        Self {
            user_name: record.user_name,
            user_id: record.user_id,
            stream_id: record.stream_id,
            segments: record.segments,
            start_timestamp: record.start_timestamp,
            offline_timestamp: record.offline_timestamp,
            config,
        }
    }
}

} // verus!
