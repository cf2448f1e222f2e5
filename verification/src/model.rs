//! Values that the upstream API reports: categories, streams, recordings, clips.
//!
//! Instants are whole seconds since the Unix epoch.

use vstd::prelude::*;
use crate::text::{chars_of, push_char, push_decimal2, read_digits, same_text};
use crate::text::{all_digits, decimal2, digits_value, is_digit};

verus! {

/// A content category.
#[derive(Debug)]
pub struct Game {
    pub id: String,
    pub name: String,
}

/// Mathematical value of a [`Game`].
pub struct GameView {
    pub id: Seq<char>,
    pub name: Seq<char>,
}

impl View for Game {
    type V = GameView;

    open spec fn view(&self) -> GameView {
        GameView { id: self.id@, name: self.name@ }
    }
}

/// The sentinel that stands for "no category".
pub open spec fn empty_game() -> GameView {
    GameView { id: Seq::empty(), name: "No Category"@ }
}

impl Clone for Game {
    fn clone(&self) -> (out: Self)
        ensures
            out == *self,
    {
        Game { id: self.id.clone(), name: self.name.clone() }
    }
}

impl Game {
    /// The sentinel that stands for "no category".
    pub fn empty() -> (out: Self)
        ensures
            out@ == empty_game(),
    {
        Game { id: String::new(), name: "No Category".to_owned() }
    }

    /// Whether this is the "no category" sentinel: its id is empty.
    pub fn is_empty(&self) -> (out: bool)
        ensures
            out == (self@.id.len() == 0),
    {
        self.id.as_str().is_empty()
    }
}

/// An account of the upstream service.
#[derive(Debug, Clone)]
pub struct User {
    pub id: String,
    pub login: String,
    pub display_name: String,
}

/// What kind of recording a video is.
#[derive(Clone, Copy, Debug, PartialEq, Eq, Structural)]
pub enum VideoType {
    Archive,
    Upload,
    Highlight,
}

/// The upstream name of a video kind.
pub open spec fn video_type_name(kind: VideoType) -> Seq<char> {
    match kind {
        VideoType::Archive => "archive"@,
        VideoType::Upload => "upload"@,
        VideoType::Highlight => "highlight"@,
    }
}

/// The video kind that `name` names, if any.
pub open spec fn video_type_named(name: Seq<char>) -> Option<VideoType> {
    if name == "archive"@ {
        Some(VideoType::Archive)
    } else if name == "upload"@ {
        Some(VideoType::Upload)
    } else if name == "highlight"@ {
        Some(VideoType::Highlight)
    } else {
        None
    }
}

impl VideoType {
    /// The upstream name of this kind.
    pub fn name(self) -> (out: String)
        ensures
            out@ == video_type_name(self),
    {
        match self {
            VideoType::Archive => "archive".to_owned(),
            VideoType::Upload => "upload".to_owned(),
            VideoType::Highlight => "highlight".to_owned(),
        }
    }

    /// Reads an upstream name; any name but the three known ones is refused.
    pub fn parse(name: &str) -> (out: Option<VideoType>)
        ensures
            out == video_type_named(name@),
    {
        if same_text(name, "archive") {
            Some(VideoType::Archive)
        } else if same_text(name, "upload") {
            Some(VideoType::Upload)
        } else if same_text(name, "highlight") {
            Some(VideoType::Highlight)
        } else {
            None
        }
    }
}

/// Whether a stream is reported as live.
#[derive(Clone, Copy, Debug, PartialEq, Eq, Structural)]
pub enum StreamType {
    Live,
    Other,
}

impl StreamType {
    /// Reads an upstream name: `live` is live, anything else is not.
    pub fn parse(name: &str) -> (out: StreamType)
        ensures
            out == (if name@ == "live"@ {
                StreamType::Live
            } else {
                StreamType::Other
            }),
    {
        if same_text(name, "live") {
            StreamType::Live
        } else {
            StreamType::Other
        }
    }
}

/// A recording of a broadcast.
#[derive(Debug)]
pub struct Video {
    pub id: String,
    pub url: String,
    pub title: String,
    pub thumbnail_url: String,
    pub view_count: i32,
    pub kind: VideoType,
    /// When the recording was created.
    pub created_at: u64,
    pub duration: VideoDuration,
}

/// Mathematical value of a [`Video`].
pub struct VideoView {
    pub id: Seq<char>,
    pub url: Seq<char>,
    pub title: Seq<char>,
    pub thumbnail_url: Seq<char>,
    pub view_count: i32,
    pub kind: VideoType,
    pub created_at: u64,
    pub duration: u32,
}

impl View for Video {
    type V = VideoView;

    open spec fn view(&self) -> VideoView {
        VideoView {
            id: self.id@,
            url: self.url@,
            title: self.title@,
            thumbnail_url: self.thumbnail_url@,
            view_count: self.view_count,
            kind: self.kind,
            created_at: self.created_at,
            duration: self.duration.0,
        }
    }
}

impl Clone for Video {
    fn clone(&self) -> (out: Self)
        ensures
            out@ == self@,
    {
        Video {
            id: self.id.clone(),
            url: self.url.clone(),
            title: self.title.clone(),
            thumbnail_url: self.thumbnail_url.clone(),
            view_count: self.view_count,
            kind: self.kind,
            created_at: self.created_at,
            duration: VideoDuration(self.duration.0),
        }
    }
}

impl Video {
    /// The address to fetch this recording's thumbnail from, if it has one.
    pub fn get_thumbnail(&self) -> (out: Option<String>)
        ensures
            match out {
                Some(url) => self@.thumbnail_url.len() > 0 && url@ == self@.thumbnail_url,
                None => self@.thumbnail_url.len() == 0,
            },
    {
        if self.thumbnail_url.as_str().is_empty() {
            None
        } else {
            Some(self.thumbnail_url.clone())
        }
    }
}

/// A short excerpt of a broadcast.
#[derive(Debug, Clone)]
pub struct Clip {
    pub id: String,
    pub video_id: String,
    pub url: String,
    pub title: String,
    pub thumbnail_url: String,
    pub view_count: i32,
    /// When the clip was created.
    pub created_at: u64,
}

/// Mathematical value of a [`Clip`].
pub struct ClipView {
    pub id: Seq<char>,
    pub video_id: Seq<char>,
    pub url: Seq<char>,
    pub title: Seq<char>,
    pub thumbnail_url: Seq<char>,
    pub view_count: i32,
    pub created_at: u64,
}

impl View for Clip {
    type V = ClipView;

    open spec fn view(&self) -> ClipView {
        ClipView {
            id: self.id@,
            video_id: self.video_id@,
            url: self.url@,
            title: self.title@,
            thumbnail_url: self.thumbnail_url@,
            view_count: self.view_count,
            created_at: self.created_at,
        }
    }
}

/// One poll's view of a channel.
#[derive(Debug, Clone)]
pub struct Stream {
    /// The broadcast id.
    pub id: String,
    /// The category id; empty where the stream has no category.
    pub game_id: String,
    pub title: String,
    pub kind: StreamType,
    pub language: String,
    /// Address template of the preview image.
    pub thumbnail_url: String,
    pub user_id: String,
    pub user_login: String,
    pub user_name: String,
    /// When the broadcast began.
    pub started_at: u64,
}

/// Mathematical value of a [`Stream`].
pub struct StreamView {
    pub id: Seq<char>,
    pub game_id: Seq<char>,
    pub title: Seq<char>,
    pub kind: StreamType,
    pub language: Seq<char>,
    pub thumbnail_url: Seq<char>,
    pub user_id: Seq<char>,
    pub user_login: Seq<char>,
    pub user_name: Seq<char>,
    pub started_at: u64,
}

impl View for Stream {
    type V = StreamView;

    open spec fn view(&self) -> StreamView {
        StreamView {
            id: self.id@,
            game_id: self.game_id@,
            title: self.title@,
            kind: self.kind,
            language: self.language@,
            thumbnail_url: self.thumbnail_url@,
            user_id: self.user_id@,
            user_login: self.user_login@,
            user_name: self.user_name@,
            started_at: self.started_at,
        }
    }
}

/// The envelope around every list that the upstream API returns.
#[derive(Debug, Clone)]
pub struct TwitchData<T> {
    pub data: Vec<T>,
}

/// A length of time in whole seconds.
#[derive(Clone, Copy, Debug)]
pub struct VideoDuration(pub u32);

/// The number of seconds in the unit that `c` names.
pub open spec fn unit_seconds(c: char) -> Option<nat> {
    if c == 'h' {
        Some(3600)
    } else if c == 'm' {
        Some(60)
    } else if c == 's' {
        Some(1)
    } else {
        None
    }
}

/// What the run of digits `s[run..at]`, ended by the character at `at`, adds to
/// a duration: its value times the unit that follows it. A run that is empty,
/// that is not followed by a unit, or whose value exceeds `u32::MAX` adds nothing.
pub open spec fn run_seconds(s: Seq<char>, run: int, at: int) -> nat {
    if 0 <= run < at < s.len() && digits_value(s.subrange(run, at)) <= u32::MAX {
        match unit_seconds(s[at]) {
            Some(unit) => digits_value(s.subrange(run, at)) * unit,
            None => 0,
        }
    } else {
        0
    }
}

/// The seconds that the text from position `at` on adds, where `run` is the
/// start of the run of digits that reaches `at`.
pub open spec fn seconds_from(s: Seq<char>, at: int, run: int) -> nat
    decreases s.len() - at,
{
    if at < 0 || at >= s.len() {
        0
    } else if is_digit(s[at]) {
        seconds_from(s, at + 1, run)
    } else {
        run_seconds(s, run, at) + seconds_from(s, at + 1, at + 1)
    }
}

/// The length of time that a text such as `1h02m3s` spells: every maximal run
/// of digits directly followed by `h`, `m` or `s` counts with that unit, all
/// else is skipped, and the sum is taken modulo 2^32.
pub open spec fn duration_seconds(s: Seq<char>) -> u32 {
    (seconds_from(s, 0, 0) % 0x1_0000_0000) as u32
}

/// `HHhMMmSSs`, the hours not wrapped.
pub open spec fn duration_text(secs: u32) -> Seq<char> {
    decimal2((secs / 3600) as nat) + "h"@ + decimal2((secs / 60 % 60) as nat) + "m"@ + decimal2(
        (secs % 60) as nat,
    ) + "s"@
}

/// The sum of the durations in `items`, modulo 2^32.
pub open spec fn duration_total(items: Seq<VideoDuration>) -> nat
    decreases items.len(),
{
    if items.len() == 0 {
        0
    } else {
        ((duration_total(items.drop_last()) + items.last().0) % 0x1_0000_0000) as nat
    }
}

proof fn lemma_mod_step(acc: nat, add: nat, total: nat)
    requires
        total == acc % 0x1_0000_0000,
    ensures
        (total + add) % 0x1_0000_0000 == (acc + add) % 0x1_0000_0000,
{
    vstd::arithmetic::div_mod::lemma_add_mod_noop(acc as int, add as int, 0x1_0000_0000);
    vstd::arithmetic::div_mod::lemma_add_mod_noop(total as int, add as int, 0x1_0000_0000);
    vstd::arithmetic::div_mod::lemma_mod_twice(acc as int, 0x1_0000_0000);
}

impl VideoDuration {
    /// The unit that `c` names, in seconds.
    pub fn unit(c: char) -> (out: Option<u64>)
        ensures
            match out {
                Some(u) => unit_seconds(c) == Some(u as nat),
                None => unit_seconds(c) is None,
            },
    {
        if c == 'h' {
            Some(3600)
        } else if c == 'm' {
            Some(60)
        } else if c == 's' {
            Some(1)
        } else {
            None
        }
    }

    /// Reads a duration as the upstream API writes it, such as `1h02m3s`.
    pub fn parse(text: &str) -> (out: VideoDuration)
        ensures
            out.0 == duration_seconds(text@),
    {
        let chars = chars_of(text);
        let mut total: u64 = 0;
        let mut run: usize = 0;
        let mut at: usize = 0;
        let ghost mut exact: nat = 0;
        while at < chars.len()
            invariant
                chars@ == text@,
                run <= at <= chars.len(),
                all_digits(chars@.subrange(run as int, at as int)),
                total == exact % 0x1_0000_0000,
                exact + seconds_from(chars@, at as int, run as int) == seconds_from(chars@, 0, 0),
            decreases chars.len() - at,
        {
            let c = chars[at];
            match crate::text::digit_value(c) {
                Some(_) => {
                    assert forall|k: int| 0 <= k < at + 1 - run implies is_digit(
                        #[trigger] chars@.subrange(run as int, at + 1)[k],
                    ) by {
                        if k < at - run {
                            assert(chars@.subrange(run as int, at as int)[k] == chars@[run + k]);
                        }
                    }
                },
                None => {
                    let ghost add = run_seconds(chars@, run as int, at as int);
                    let mut step: u64 = 0;
                    if run < at {
                        match Self::unit(c) {
                            Some(unit) => {
                                match read_digits(&chars, run, at, 0xffff_ffff) {
                                    Some(value) => {
                                        assert(value * unit <= 0xffff_ffff * 3600) by (nonlinear_arith)
                                            requires
                                                value <= 0xffff_ffff,
                                                unit <= 3600,
                                        ;
                                        step = value * unit;
                                    },
                                    None => {},
                                }
                            },
                            None => {},
                        }
                    }
                    assert(step == add);
                    proof {
                        lemma_mod_step(exact, add, total as nat);
                        exact = exact + add;
                    }
                    total = (total + step) % 0x1_0000_0000;
                    run = at + 1;
                    assert(chars@.subrange(at + 1, at + 1) =~= Seq::<char>::empty());
                },
            }
            at = at + 1;
        }
        VideoDuration(total as u32)
    }

    /// The sum of two durations, modulo 2^32.
    pub fn add(self, other: VideoDuration) -> (out: VideoDuration)
        ensures
            out.0 == (self.0 + other.0) % 0x1_0000_0000,
    {
        let wide: u64 = (self.0 as u64 + other.0 as u64) % 0x1_0000_0000;
        VideoDuration(wide as u32)
    }

    /// The sum of all durations in `items`, modulo 2^32.
    pub fn sum(items: &Vec<VideoDuration>) -> (out: VideoDuration)
        ensures
            out.0 == duration_total(items@),
    {
        let mut total = VideoDuration(0);
        let mut i: usize = 0;
        while i < items.len()
            invariant
                i <= items.len(),
                total.0 == duration_total(items@.subrange(0, i as int)),
            decreases items.len() - i,
        {
            assert(items@.subrange(0, i + 1).drop_last() =~= items@.subrange(0, i as int));
            total = total.add(items[i]);
            i = i + 1;
        }
        assert(items@.subrange(0, items.len() as int) =~= items@);
        total
    }

    /// Renders the duration as `HHhMMmSSs`.
    pub fn to_string(&self) -> (out: String)
        ensures
            out@ == duration_text(self.0),
    {
        let mut out = String::new();
        push_decimal2(&mut out, (self.0 / 3600) as u64);
        push_char(&mut out, 'h');
        push_decimal2(&mut out, (self.0 / 60 % 60) as u64);
        push_char(&mut out, 'm');
        push_decimal2(&mut out, (self.0 % 60) as u64);
        push_char(&mut out, 's');
        proof {
            reveal_strlit("h");
            reveal_strlit("m");
            reveal_strlit("s");
            assert("h"@ =~= seq!['h']);
            assert("m"@ =~= seq!['m']);
            assert("s"@ =~= seq!['s']);
        }
        assert(out@ =~= duration_text(self.0));
        out
    }
}

} // verus!
