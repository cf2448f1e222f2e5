//! The parts of a closing notification that are computed from lists: the
//! index of segment timestamps, cut into fields, and the list of top clips.

use vstd::prelude::*;
use crate::model::{Clip, ClipView};
use crate::text::{byte_len, byte_length, byte_prefix, decimal, prefix_within, push_char};
use crate::text::{push_decimal, push_signed, push_text, round_brackets, signed_decimal};
use crate::text::{texts, with_round_brackets};

verus! {

/// The most bytes that the entries of one field of the index take together
/// before a new field is begun.
pub const FIELD_LIMIT: usize = 1000;

/// The most fields that the index is cut into.
pub const FIELD_COUNT: usize = 4;

/// The fields of the index of `stamps` from entry `at` on, where `done` holds
/// the fields that are full and `current` the field that is being filled.
///
/// An entry goes on a line of its own in the current field, unless the two
/// together would take more than [`FIELD_LIMIT`] bytes: then the entry begins
/// the next field, and where that would be a fifth one, the fourth one ends
/// with an ellipsis instead and the remaining entries are left out.
pub open spec fn chunk_from(
    stamps: Seq<Seq<char>>,
    at: int,
    done: Seq<Seq<char>>,
    current: Seq<char>,
) -> Seq<Seq<char>>
    decreases stamps.len() - at,
{
    if at < 0 || at >= stamps.len() {
        done.push(current)
    } else if byte_len(current) + byte_len(stamps[at]) > FIELD_LIMIT {
        if done.len() == FIELD_COUNT - 1 {
            done.push(current + "..."@)
        } else {
            chunk_from(stamps, at + 1, done.push(current), stamps[at].push('\n'))
        }
    } else {
        chunk_from(stamps, at + 1, done, current + stamps[at].push('\n'))
    }
}

/// The index of `stamps`, cut into fields.
pub open spec fn timestamp_index(stamps: Seq<Seq<char>>) -> Seq<Seq<char>> {
    chunk_from(stamps, 0, Seq::empty(), Seq::empty())
}

/// The index has at least one field and never more than [`FIELD_COUNT`].
pub proof fn lemma_index_field_count(
    stamps: Seq<Seq<char>>,
    at: int,
    done: Seq<Seq<char>>,
    current: Seq<char>,
)
    requires
        done.len() < FIELD_COUNT,
    ensures
        1 <= chunk_from(stamps, at, done, current).len() <= FIELD_COUNT,
    decreases stamps.len() - at,
{
    if at < 0 || at >= stamps.len() {
    } else if byte_len(current) + byte_len(stamps[at]) > FIELD_LIMIT {
        if done.len() != FIELD_COUNT - 1 {
            lemma_index_field_count(stamps, at + 1, done.push(current), stamps[at].push('\n'));
        }
    } else {
        lemma_index_field_count(stamps, at + 1, done, current + stamps[at].push('\n'));
    }
}

/// Cuts the index of `stamps` into fields.
pub fn build_index(stamps: &Vec<String>) -> (out: Vec<String>)
    ensures
        texts(out@) == timestamp_index(texts(stamps@)),
        1 <= out.len() <= FIELD_COUNT,
{
    let ghost all = texts(stamps@);
    let mut index: Vec<String> = Vec::new();
    let mut current = String::new();
    let mut at: usize = 0;
    let mut cut = false;
    proof {
        lemma_index_field_count(all, 0, Seq::empty(), Seq::empty());
        assert(texts(index@) =~= Seq::<Seq<char>>::empty());
    }
    while at < stamps.len()
        invariant
            at <= stamps.len(),
            all == texts(stamps@),
            index.len() < FIELD_COUNT,
            cut ==> at == stamps.len(),
            !cut ==> chunk_from(all, at as int, texts(index@), current@) == timestamp_index(all),
            cut ==> texts(index@).push(current@) == timestamp_index(all),
        decreases stamps.len() - at,
    {
        let stamp = &stamps[at];
        assert(all[at as int] == stamp@);
        let used: usize = byte_length(current.as_str());
        let more: usize = byte_length(stamp.as_str());
        if more > FIELD_LIMIT || used > FIELD_LIMIT - more {
            if index.len() == FIELD_COUNT - 1 {
                let ghost done = texts(index@);
                let ghost filling = current@;
                assert(done.len() == FIELD_COUNT - 1);
                assert(chunk_from(all, at as int, done, filling) == done.push(filling + "..."@));
                push_text(&mut current, "...");
                cut = true;
                at = stamps.len();
            } else {
                let ghost before = texts(index@);
                let ghost filled = current@;
                index.push(current);
                assert(texts(index@) =~= before.push(filled));
                current = String::new();
                push_text(&mut current, stamp.as_str());
                push_char(&mut current, '\n');
                assert(current@ =~= stamp@.push('\n'));
                at = at + 1;
            }
        } else {
            let ghost before = current@;
            push_text(&mut current, stamp.as_str());
            push_char(&mut current, '\n');
            assert(current@ =~= before + stamp@.push('\n'));
            at = at + 1;
        }
    }
    let ghost before = texts(index@);
    let ghost last = current@;
    index.push(current);
    assert(texts(index@) =~= before.push(last));
    index
}

/// The most bytes of a clip's title that are shown.
pub const TITLE_LIMIT: usize = 25;

/// The title of a clip as it is shown: one of [`TITLE_LIMIT`] bytes or more is
/// cut to its longest prefix within the limit and ends with an ellipsis.
pub open spec fn clip_title(title: Seq<char>) -> Seq<char> {
    if byte_len(title) >= TITLE_LIMIT {
        byte_prefix(title, TITLE_LIMIT as int) + "..."@
    } else {
        title
    }
}

/// The line of the clip `c` at place `at`, counted from zero, in the list of top clips.
pub open spec fn clip_line(at: nat, c: ClipView) -> Seq<char> {
    seq!['`'] + decimal(at + 1) + ".` [**"@ + round_brackets(clip_title(c.title))
        + " \u{1F855}**]("@ + c.url + ") \u{2022} **"@ + signed_decimal(c.view_count as int)
        + "**\u{00A0}views\n"@
}

/// The lines of the first `n` clips of `clips`.
pub open spec fn clip_lines(clips: Seq<ClipView>, n: int) -> Seq<char>
    decreases n,
{
    if n <= 0 {
        Seq::empty()
    } else {
        clip_lines(clips, n - 1) + clip_line((n - 1) as nat, clips[n - 1])
    }
}

/// Mathematical value of a list of clips.
pub open spec fn clip_views(clips: Seq<Clip>) -> Seq<ClipView> {
    clips.map_values(|c: Clip| c@)
}

/// The title of a clip as it is shown.
pub fn shown_title(title: &str) -> (out: String)
    ensures
        out@ == clip_title(title@),
{
    let mut out = String::new();
    if byte_length(title) >= TITLE_LIMIT {
        push_text(&mut out, prefix_within(title, TITLE_LIMIT));
        push_text(&mut out, "...");
        assert(out@ =~= byte_prefix(title@, TITLE_LIMIT as int) + "..."@);
    } else {
        push_text(&mut out, title);
        assert(out@ =~= title@);
    }
    out
}

/// The line of `clip` at place `at`, counted from zero.
pub fn clip_line_text(at: usize, clip: &Clip) -> (out: String)
    requires
        at < usize::MAX,
    ensures
        out@ == clip_line(at as nat, clip@),
{
    let title = shown_title(clip.title.as_str());
    let title = with_round_brackets(title.as_str());
    let mut out = String::new();
    push_char(&mut out, '`');
    push_decimal(&mut out, (at + 1) as u64);
    push_text(&mut out, ".` [**");
    push_text(&mut out, title.as_str());
    push_text(&mut out, " \u{1F855}**](");
    let ghost head = out@;
    assert(head =~= seq!['`'] + decimal((at + 1) as nat) + ".` [**"@ + round_brackets(
        clip_title(clip@.title),
    ) + " \u{1F855}**]("@);
    push_text(&mut out, clip.url.as_str());
    push_text(&mut out, ") \u{2022} **");
    push_signed(&mut out, clip.view_count);
    push_text(&mut out, "**\u{00A0}views\n");
    assert(out@ =~= head + clip@.url + ") \u{2022} **"@ + signed_decimal(
        clip@.view_count as int,
    ) + "**\u{00A0}views\n"@);
    out
}

/// The list of top clips, one line each.
pub fn top_clips_text(clips: &Vec<Clip>) -> (out: String)
    ensures
        out@ == clip_lines(clip_views(clips@), clips.len() as int),
{
    let mut out = String::new();
    let mut i: usize = 0;
    while i < clips.len()
        invariant
            i <= clips.len(),
            out@ == clip_lines(clip_views(clips@), i as int),
        decreases clips.len() - i,
    {
        assert(clip_views(clips@)[i as int] == clips@[i as int]@);
        let line = clip_line_text(i, &clips[i]);
        push_text(&mut out, line.as_str());
        i = i + 1;
    }
    out
}

} // verus!
