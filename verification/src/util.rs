//! Points in time as the engine counts them, and the titles of links.

use vstd::prelude::*;
use crate::pattern::{regex_replaced, replace_matches};
use crate::text::{chars_of, push_char};

verus! {

/// An instant, in whole seconds since the Unix epoch.
#[derive(Clone, Copy, Debug, PartialEq, Eq, Structural)]
pub struct Timestamp(pub u64);

impl Timestamp {
    /// The instant `secs` seconds after the epoch.
    pub fn new(secs: u64) -> (out: Self)
        ensures
            out.0 == secs,
    {
        Timestamp(secs)
    }

    /// Seconds since the epoch.
    pub fn secs(&self) -> (out: u64)
        ensures
            out == self.0,
    {
        self.0
    }

    /// The instant `rhs` seconds later.
    pub fn add(self, rhs: u64) -> (out: Self)
        requires
            self.0 + rhs <= u64::MAX,
        ensures
            out.0 == self.0 + rhs,
    {
        Timestamp(self.0 + rhs)
    }

    /// Whether this instant lies strictly after `other`.
    pub fn is_after(&self, other: &Timestamp) -> (out: bool)
        ensures
            out == (self.0 > other.0),
    {
        self.0 > other.0
    }
}

/// What is replaced by one blank in the title of a link: runs of the
/// characters that mark emphasis, code, strike-through and spoilers, with the
/// blanks around them, and the scheme of an address with the blanks before it.
pub open spec fn markup_pattern() -> Seq<char> {
    "\\s*(?:[_*`]+|~~+|\\|\\|+)\\s*|(\\s+|^)\\w+://"@
}

/// Whether `c` is an emoji or a part of one: a pictograph, a dingbat or a
/// miscellaneous symbol, a flag letter, a tag, or one of the joiner, the
/// keycap and the selector that bind a sequence.
pub open spec fn is_emoji(c: char) -> bool {
    let v = c as u32;
    (0x1F000 <= v && v <= 0x1FAFF) || (0x2600 <= v && v <= 0x27BF) || (0xE0020 <= v && v
        <= 0xE007F) || v == 0x200D || v == 0x20E3 || v == 0xFE0F
}

/// Whether `c` is what a byte from 0x80 to 0xBF shows as when it is read as
/// Windows-1252.
pub open spec fn is_misread_byte(c: char) -> bool {
    let v = c as u32;
    (0x80 <= v && v <= 0xBF) || v == 0x20AC || v == 0x201A || v == 0x0192 || v == 0x201E || v
        == 0x2026 || v == 0x2020 || v == 0x2021 || v == 0x02C6 || v == 0x2030 || v == 0x0160
        || v == 0x2039 || v == 0x0152 || v == 0x017D || v == 0x2018 || v == 0x2019 || v
        == 0x201C || v == 0x201D || v == 0x2022 || v == 0x2013 || v == 0x2014 || v == 0x02DC
        || v == 0x2122 || v == 0x0161 || v == 0x203A || v == 0x0153 || v == 0x017E || v
        == 0x0178
}

/// Whether an emoji stands at `at` in the form that it takes where its four
/// bytes of UTF-8 were read as Windows-1252: the characters of the bytes
/// 0xF0 and 0x9F, then those of two more bytes.
pub open spec fn misread_emoji_at(s: Seq<char>, at: int) -> bool {
    0 <= at && at + 3 < s.len() && s[at] == '\u{f0}' && s[at + 1] == '\u{178}'
        && is_misread_byte(s[at + 2]) && is_misread_byte(s[at + 3])
}

/// Whether `c` is white space: one of the characters with the Unicode
/// property `White_Space`.
pub open spec fn is_space(c: char) -> bool {
    let v = c as u32;
    (0x09 <= v && v <= 0x0D) || v == 0x20 || v == 0x85 || v == 0xA0 || v == 0x1680 || (0x2000
        <= v && v <= 0x200A) || v == 0x2028 || v == 0x2029 || v == 0x202F || v == 0x205F || v
        == 0x3000
}

/// `s` from `at` on without its emoji, misread ones included; every other
/// character is kept, in order.
pub open spec fn without_emoji(s: Seq<char>, at: int) -> Seq<char>
    decreases s.len() - at,
{
    if at < 0 || at >= s.len() {
        Seq::empty()
    } else if misread_emoji_at(s, at) {
        without_emoji(s, at + 4)
    } else if is_emoji(s[at]) {
        without_emoji(s, at + 1)
    } else {
        seq![s[at]] + without_emoji(s, at + 1)
    }
}

/// A text without emoji is kept as it is, whatever its script.
pub proof fn lemma_text_without_emoji_is_kept(s: Seq<char>, at: int)
    requires
        0 <= at <= s.len(),
        forall|i: int| at <= i < s.len() ==> !is_emoji(#[trigger] s[i]) && !misread_emoji_at(s, i),
    ensures
        without_emoji(s, at) == s.subrange(at, s.len() as int),
    decreases s.len() - at,
{
    if at < s.len() {
        assert(!is_emoji(s[at]) && !misread_emoji_at(s, at));
        lemma_text_without_emoji_is_kept(s, at + 1);
        assert(seq![s[at]] + s.subrange(at + 1, s.len() as int) =~= s.subrange(
            at,
            s.len() as int,
        ));
    } else {
        assert(s.subrange(at, s.len() as int) =~= Seq::<char>::empty());
    }
}

/// No emoji is left.
pub proof fn lemma_no_emoji_is_left(s: Seq<char>, at: int)
    ensures
        forall|i: int|
            0 <= i < without_emoji(s, at).len() ==> !is_emoji(#[trigger] without_emoji(s, at)[i]),
    decreases s.len() - at,
{
    let out = without_emoji(s, at);
    if 0 <= at < s.len() {
        if misread_emoji_at(s, at) {
            lemma_no_emoji_is_left(s, at + 4);
            assert(out == without_emoji(s, at + 4));
        } else {
            lemma_no_emoji_is_left(s, at + 1);
            let rest = without_emoji(s, at + 1);
            if is_emoji(s[at]) {
                assert(out == rest);
            } else {
                assert(out == seq![s[at]] + rest);
                assert forall|i: int| 0 <= i < out.len() implies !is_emoji(#[trigger] out[i]) by {
                    if i > 0 {
                        assert(out[i] == rest[i - 1]);
                    }
                }
            }
        }
    } else {
        assert(out.len() == 0);
    }
}

/// `s` without the white space it begins with.
pub open spec fn strip_front(s: Seq<char>) -> Seq<char>
    decreases s.len(),
{
    if s.len() > 0 && is_space(s[0]) {
        strip_front(s.drop_first())
    } else {
        s
    }
}

/// `s` without the white space it ends with.
pub open spec fn strip_back(s: Seq<char>) -> Seq<char>
    decreases s.len(),
{
    if s.len() > 0 && is_space(s.last()) {
        strip_back(s.drop_last())
    } else {
        s
    }
}

/// The title made of `replaced`, a text whose markup is already replaced:
/// the text without its emoji and without white space at either end.
pub open spec fn clean_title(replaced: Seq<char>) -> Seq<char> {
    strip_back(strip_front(without_emoji(replaced, 0)))
}

/// What is left of a text whose ends were stripped neither begins nor ends
/// with white space.
pub proof fn lemma_stripped_ends(s: Seq<char>)
    ensures
        strip_front(s).len() > 0 ==> !is_space(strip_front(s)[0]),
        strip_back(s).len() > 0 ==> !is_space(strip_back(s).last()),
        s.len() > 0 && !is_space(s[0]) && strip_back(s).len() > 0 ==> strip_back(s)[0] == s[0],
    decreases s.len(),
{
    if s.len() > 0 {
        if is_space(s[0]) {
            lemma_stripped_ends(s.drop_first());
        }
        if is_space(s.last()) {
            lemma_stripped_ends(s.drop_last());
            if s.len() > 1 {
                assert(s.drop_last()[0] == s[0]);
            }
        }
    }
}

/// Whether `c` is white space.
pub fn is_space_char(c: char) -> (out: bool)
    ensures
        out == is_space(c),
{
    let v: u32 = c as u32;
    (0x09 <= v && v <= 0x0D) || v == 0x20 || v == 0x85 || v == 0xA0 || v == 0x1680 || (0x2000
        <= v && v <= 0x200A) || v == 0x2028 || v == 0x2029 || v == 0x202F || v == 0x205F || v
        == 0x3000
}

/// Whether `c` is an emoji or a part of one.
pub fn is_emoji_char(c: char) -> (out: bool)
    ensures
        out == is_emoji(c),
{
    let v: u32 = c as u32;
    (0x1F000 <= v && v <= 0x1FAFF) || (0x2600 <= v && v <= 0x27BF) || (0xE0020 <= v && v
        <= 0xE007F) || v == 0x200D || v == 0x20E3 || v == 0xFE0F
}

/// Whether `c` is what a byte from 0x80 to 0xBF shows as when it is read as
/// Windows-1252.
pub fn is_misread_byte_char(c: char) -> (out: bool)
    ensures
        out == is_misread_byte(c),
{
    let v: u32 = c as u32;
    (0x80 <= v && v <= 0xBF) || v == 0x20AC || v == 0x201A || v == 0x0192 || v == 0x201E || v
        == 0x2026 || v == 0x2020 || v == 0x2021 || v == 0x02C6 || v == 0x2030 || v == 0x0160
        || v == 0x2039 || v == 0x0152 || v == 0x017D || v == 0x2018 || v == 0x2019 || v
        == 0x201C || v == 0x201D || v == 0x2022 || v == 0x2013 || v == 0x2014 || v == 0x02DC
        || v == 0x2122 || v == 0x0161 || v == 0x203A || v == 0x0153 || v == 0x017E || v
        == 0x0178
}

/// `chars` without the white space at either end.
pub fn trim_chars(chars: &Vec<char>) -> (out: String)
    ensures
        out@ == strip_back(strip_front(chars@)),
        out@.len() > 0 ==> !is_space(out@[0]) && !is_space(out@.last()),
{
    proof {
        lemma_stripped_ends(chars@);
        lemma_stripped_ends(strip_front(chars@));
    }
    let mut from: usize = 0;
    assert(chars@.subrange(0, chars.len() as int) =~= chars@);
    while from < chars.len() && is_space_char(chars[from])
        invariant
            from <= chars.len(),
            strip_front(chars@) == strip_front(chars@.subrange(from as int, chars.len() as int)),
        decreases chars.len() - from,
    {
        assert(chars@.subrange(from as int, chars.len() as int).drop_first()
            =~= chars@.subrange(from + 1, chars.len() as int));
        from = from + 1;
    }
    let ghost front = chars@.subrange(from as int, chars.len() as int);
    assert(strip_front(chars@) == front);
    let mut to: usize = chars.len();
    while to > from && is_space_char(chars[to - 1])
        invariant
            from <= to <= chars.len(),
            front == chars@.subrange(from as int, chars.len() as int),
            strip_back(front) == strip_back(chars@.subrange(from as int, to as int)),
        decreases to - from,
    {
        assert(chars@.subrange(from as int, to as int).drop_last() =~= chars@.subrange(
            from as int,
            to - 1,
        ));
        to = to - 1;
    }
    assert(strip_back(front) == chars@.subrange(from as int, to as int));
    let mut out = String::new();
    let mut i: usize = from;
    while i < to
        invariant
            from <= i <= to <= chars.len(),
            out@ == chars@.subrange(from as int, i as int),
        decreases to - i,
    {
        push_char(&mut out, chars[i]);
        assert(out@ =~= chars@.subrange(from as int, i + 1));
        i = i + 1;
    }
    out
}

/// The title made of `replaced`, a text whose markup is already replaced.
/// It holds no emoji, and neither begins nor ends with white space.
pub fn clean_link_title(replaced: &str) -> (out: String)
    ensures
        out@ == clean_title(replaced@),
        out@.len() > 0 ==> !is_space(out@[0]) && !is_space(out@.last()),
{
    let chars = chars_of(replaced);
    let mut kept: Vec<char> = Vec::new();
    let mut i: usize = 0;
    assert(kept@ + without_emoji(chars@, 0) =~= without_emoji(chars@, 0));
    while i < chars.len()
        invariant
            i <= chars.len(),
            chars@ == replaced@,
            kept@ + without_emoji(chars@, i as int) == without_emoji(chars@, 0),
        decreases chars.len() - i,
    {
        let ghost before = kept@;
        let c = chars[i];
        if c == '\u{f0}' && chars.len() - i > 3 && chars[i + 1] == '\u{178}'
            && is_misread_byte_char(chars[i + 2]) && is_misread_byte_char(chars[i + 3]) {
            i = i + 4;
        } else if is_emoji_char(c) {
            i = i + 1;
        } else {
            kept.push(c);
            assert(kept@ + without_emoji(chars@, i + 1) =~= before + (seq![c] + without_emoji(
                chars@,
                i + 1,
            )));
            i = i + 1;
        }
    }
    assert(kept@ =~= without_emoji(chars@, 0));
    trim_chars(&kept)
}

/// The text that a link shows for `text`: markup and the schemes of
/// addresses give way to single blanks, then emoji are left out and the ends
/// are trimmed. Where the pattern of the markup is refused, nothing is
/// replaced.
pub fn sanitize_link_title(text: &str) -> (out: String)
    ensures
        out@.len() > 0 ==> !is_space(out@[0]) && !is_space(out@.last()),
        out@ == clean_title(
            match regex_replaced(markup_pattern(), text@, 0, " "@) {
                Some(replaced) => replaced,
                None => text@,
            },
        ),
{
    match replace_matches("\\s*(?:[_*`]+|~~+|\\|\\|+)\\s*|(\\s+|^)\\w+://", text, 0, " ") {
        Some(replaced) => clean_link_title(replaced.as_str()),
        None => clean_link_title(text),
    }
}

} // verus!
