//! Small string tools shared by the rest of the crate: decimal rendering and
//! parsing with exact specifications, and the few `std` string operations the
//! crate relies on.

use vstd::prelude::*;
use vstd::string::StringExecFns;

verus! {

/// The character that renders the decimal digit `d`.
pub open spec fn digit_char(d: nat) -> char
    recommends
        d < 10,
{
    if d == 0 {
        '0'
    } else if d == 1 {
        '1'
    } else if d == 2 {
        '2'
    } else if d == 3 {
        '3'
    } else if d == 4 {
        '4'
    } else if d == 5 {
        '5'
    } else if d == 6 {
        '6'
    } else if d == 7 {
        '7'
    } else if d == 8 {
        '8'
    } else {
        '9'
    }
}

/// Decimal rendering of `n` without leading zeros (`0` renders as `"0"`).
pub open spec fn decimal(n: nat) -> Seq<char>
    decreases n,
{
    if n < 10 {
        seq![digit_char(n)]
    } else {
        decimal(n / 10).push(digit_char(n % 10))
    }
}

/// Decimal rendering of `n`, padded with one leading zero below ten.
pub open spec fn decimal2(n: nat) -> Seq<char> {
    if n < 10 {
        seq!['0', digit_char(n)]
    } else {
        decimal(n)
    }
}

/// Appends one character to a string: `String::push`.
/// The string afterwards is the string before followed by `c`.
#[verifier::external_body]
pub(crate) fn push_char(s: &mut String, c: char)
    ensures
        final(s)@ == old(s)@.push(c),
{
    s.push(c)
}

/// The digit character of `d`.
pub fn digit_of(d: u8) -> (c: char)
    requires
        d < 10,
    ensures
        c == digit_char(d as nat),
{
    if d == 0 {
        '0'
    } else if d == 1 {
        '1'
    } else if d == 2 {
        '2'
    } else if d == 3 {
        '3'
    } else if d == 4 {
        '4'
    } else if d == 5 {
        '5'
    } else if d == 6 {
        '6'
    } else if d == 7 {
        '7'
    } else if d == 8 {
        '8'
    } else {
        '9'
    }
}

/// Appends the decimal rendering of `n` to `s`.
pub fn push_decimal(s: &mut String, n: u64)
    ensures
        final(s)@ == old(s)@ + decimal(n as nat),
    decreases n,
{
    if n >= 10 {
        push_decimal(s, n / 10);
    }
    let d: u8 = (n % 10) as u8;
    push_char(s, digit_of(d));
}

/// Appends the decimal rendering of `n`, at least two digits wide.
pub fn push_decimal2(s: &mut String, n: u64)
    ensures
        final(s)@ == old(s)@ + decimal2(n as nat),
{
    if n < 10 {
        push_char(s, '0');
    }
    push_decimal(s, n);
}

/// The decimal rendering of `n` as a fresh string.
pub fn decimal_string(n: u64) -> (out: String)
    ensures
        out@ == decimal(n as nat),
{
    let mut out = String::new();
    push_decimal(&mut out, n);
    out
}

/// Appends `t` to `s`.
pub fn push_text(s: &mut String, t: &str)
    ensures
        final(s)@ == old(s)@ + t@,
{
    s.append(t);
}

/// The characters of `s`, in order.
pub fn chars_of(s: &str) -> (out: Vec<char>)
    ensures
        out@ == s@,
{
    let mut out: Vec<char> = Vec::new();
    for c in it: s.chars()
        invariant
            it.seq() == s@,
            out@ == it.seq().subrange(0, it.index() as int),
    {
        out.push(c);
    }
    assert(out@ =~= s@);
    out
}

/// The value of a decimal digit character, `None` for any other character.
pub open spec fn char_digit(c: char) -> Option<nat> {
    if c == '0' {
        Some(0)
    } else if c == '1' {
        Some(1)
    } else if c == '2' {
        Some(2)
    } else if c == '3' {
        Some(3)
    } else if c == '4' {
        Some(4)
    } else if c == '5' {
        Some(5)
    } else if c == '6' {
        Some(6)
    } else if c == '7' {
        Some(7)
    } else if c == '8' {
        Some(8)
    } else if c == '9' {
        Some(9)
    } else {
        None
    }
}

/// Whether `c` is one of `0` to `9`.
pub open spec fn is_digit(c: char) -> bool {
    char_digit(c) is Some
}

/// Whether every character of `s` is a decimal digit.
pub open spec fn all_digits(s: Seq<char>) -> bool {
    forall|i: int| 0 <= i < s.len() ==> is_digit(#[trigger] s[i])
}

/// The number that the digits of `s` spell in base ten; a character that is
/// no digit counts as zero, the empty sequence spells zero.
pub open spec fn digits_value(s: Seq<char>) -> nat
    decreases s.len(),
{
    if s.len() == 0 {
        0
    } else {
        digits_value(s.drop_last()) * 10 + match char_digit(s.last()) {
            Some(d) => d,
            None => 0,
        }
    }
}

/// Reading of an unsigned decimal number bounded by `max`: a non-empty run of
/// digits whose value does not exceed `max`.
pub open spec fn parse_digits(s: Seq<char>, max: nat) -> Option<nat> {
    if s.len() > 0 && all_digits(s) && digits_value(s) <= max {
        Some(digits_value(s))
    } else {
        None
    }
}

/// Reading of an unsigned decimal number the way `u64` and `u32` are read
/// from text: one optional leading `+`, then a non-empty run of digits whose
/// value does not exceed `max`.
pub open spec fn parse_decimal(s: Seq<char>, max: nat) -> Option<nat> {
    if s.len() > 0 && s[0] == '+' {
        parse_digits(s.subrange(1, s.len() as int), max)
    } else {
        parse_digits(s, max)
    }
}

/// A longer run of digits never spells a smaller number than its prefix.
pub proof fn lemma_digits_value_monotonic(s: Seq<char>, i: int, j: int)
    requires
        0 <= i <= j <= s.len(),
    ensures
        digits_value(s.subrange(0, i)) <= digits_value(s.subrange(0, j)),
    decreases j - i,
{
    if i < j {
        lemma_digits_value_monotonic(s, i, j - 1);
        assert(s.subrange(0, j).drop_last() =~= s.subrange(0, j - 1));
    }
}

/// The value of the digit `c`, if it is one.
pub fn digit_value(c: char) -> (d: Option<u8>)
    ensures
        match d {
            Some(v) => char_digit(c) == Some(v as nat) && v < 10,
            None => char_digit(c) is None,
        },
{
    if c == '0' {
        Some(0)
    } else if c == '1' {
        Some(1)
    } else if c == '2' {
        Some(2)
    } else if c == '3' {
        Some(3)
    } else if c == '4' {
        Some(4)
    } else if c == '5' {
        Some(5)
    } else if c == '6' {
        Some(6)
    } else if c == '7' {
        Some(7)
    } else if c == '8' {
        Some(8)
    } else if c == '9' {
        Some(9)
    } else {
        None
    }
}

/// Reads the characters `chars[from..to]` as a run of decimal digits with a
/// value of at most `max`.
pub fn read_digits(chars: &Vec<char>, from: usize, to: usize, max: u64) -> (out: Option<u64>)
    requires
        from <= to <= chars.len(),
    ensures
        match out {
            Some(v) => parse_digits(chars@.subrange(from as int, to as int), max as nat) == Some(
                v as nat,
            ),
            None => parse_digits(chars@.subrange(from as int, to as int), max as nat) is None,
        },
{
    let ghost run = chars@.subrange(from as int, to as int);
    if from == to {
        return None;
    }
    let mut acc: u64 = 0;
    let mut i: usize = from;
    while i < to
        invariant
            from <= i <= to <= chars.len(),
            run == chars@.subrange(from as int, to as int),
            all_digits(run.subrange(0, i - from)),
            acc as nat == digits_value(run.subrange(0, i - from)),
            acc <= max,
        decreases to - i,
    {
        let ghost before = run.subrange(0, i - from);
        let ghost after = run.subrange(0, i - from + 1);
        proof {
            assert(after.drop_last() =~= before);
            assert(after.last() == chars@[i as int]);
            lemma_digits_value_monotonic(run, i - from + 1, run.len() as int);
            assert(run.subrange(0, run.len() as int) =~= run);
        }
        match digit_value(chars[i]) {
            None => {
                assert(!is_digit(run[i - from]));
                return None;
            },
            Some(d) => {
                if d as u64 > max || acc > (max - d as u64) / 10 {
                    assert(digits_value(after) > max);
                    return None;
                }
                acc = acc * 10 + d as u64;
                assert forall|k: int| 0 <= k < after.len() implies is_digit(
                    #[trigger] after[k],
                ) by {
                    if k < before.len() {
                        assert(after[k] == before[k]);
                    }
                }
            },
        }
        i = i + 1;
    }
    assert(run.subrange(0, to - from) =~= run);
    Some(acc)
}

/// Reads `s` as an unsigned decimal number of at most `max`.
pub fn read_decimal(s: &str, max: u64) -> (out: Option<u64>)
    ensures
        match out {
            Some(v) => parse_decimal(s@, max as nat) == Some(v as nat),
            None => parse_decimal(s@, max as nat) is None,
        },
{
    let chars = chars_of(s);
    if chars.len() > 0 && chars[0] == '+' {
        read_digits(&chars, 1, chars.len(), max)
    } else {
        assert(chars@.subrange(0, chars.len() as int) =~= chars@);
        read_digits(&chars, 0, chars.len(), max)
    }
}

/// Decimal rendering of `n`, with a leading `-` below zero.
pub open spec fn signed_decimal(n: int) -> Seq<char> {
    if n < 0 {
        seq!['-'] + decimal((-n) as nat)
    } else {
        decimal(n as nat)
    }
}

/// Appends the decimal rendering of `n` to `s`.
pub fn push_signed(s: &mut String, n: i32)
    ensures
        final(s)@ == old(s)@ + signed_decimal(n as int),
{
    let wide: i64 = n as i64;
    if wide < 0 {
        push_char(s, '-');
        push_decimal(s, (-wide) as u64);
        assert(s@ =~= old(s)@ + signed_decimal(n as int));
    } else {
        push_decimal(s, wide as u64);
    }
}

/// The number of bytes that `s` takes in UTF-8.
pub open spec fn byte_len(s: Seq<char>) -> nat {
    vstd::utf8::encode_utf8(s).len()
}

/// The number of bytes that `s` takes in UTF-8.
pub fn byte_length(s: &str) -> (n: usize)
    ensures
        n == byte_len(s@),
{
    s.as_bytes().len()
}

/// The last character boundary of `bytes` at or below `k`.
pub open spec fn boundary_below(bytes: Seq<u8>, k: int) -> int
    decreases k,
{
    if k <= 0 {
        0
    } else if vstd::utf8::is_char_boundary(bytes, k) {
        k
    } else {
        boundary_below(bytes, k - 1)
    }
}

/// The longest prefix of `s` that ends on a character boundary and takes at
/// most `limit` bytes in UTF-8.
pub open spec fn byte_prefix(s: Seq<char>, limit: int) -> Seq<char> {
    vstd::utf8::decode_utf8(
        vstd::utf8::encode_utf8(s).subrange(
            0,
            boundary_below(vstd::utf8::encode_utf8(s), limit),
        ),
    )
}

/// The longest prefix of `s` that ends on a character boundary and takes at
/// most `limit` bytes.
pub fn prefix_within(s: &str, limit: usize) -> (out: &str)
    requires
        limit <= byte_len(s@),
    ensures
        out@ == byte_prefix(s@, limit as int),
{
    broadcast use vstd::utf8::encode_utf8_valid_utf8;
    broadcast use vstd::utf8::encode_utf8_decode_utf8;
    broadcast use vstd::utf8::is_char_boundary_start_end_of_seq;

    let ghost bytes = vstd::utf8::encode_utf8(s@);
    assert(vstd::utf8::valid_utf8(bytes));
    assert(vstd::utf8::is_char_boundary(bytes, 0));
    let mut k: usize = limit;
    while !s.is_char_boundary(k)
        invariant
            k <= limit,
            bytes == vstd::utf8::encode_utf8(s@),
            vstd::utf8::is_char_boundary(bytes, 0),
            boundary_below(bytes, limit as int) == boundary_below(bytes, k as int),
        decreases k,
    {
        k = k - 1;
    }
    let (head, _) = s.split_at(k);
    assert(vstd::utf8::decode_utf8(vstd::utf8::encode_utf8(head@)) == head@);
    head
}

/// `s` with every square bracket turned into the round one.
pub open spec fn round_brackets(s: Seq<char>) -> Seq<char> {
    s.map_values(
        |c: char|
            if c == ']' {
                ')'
            } else if c == '[' {
                '('
            } else {
                c
            },
    )
}

/// `s` with every square bracket turned into the round one.
pub fn with_round_brackets(s: &str) -> (out: String)
    ensures
        out@ == round_brackets(s@),
{
    let chars = chars_of(s);
    let mut out = String::new();
    let mut i: usize = 0;
    while i < chars.len()
        invariant
            i <= chars.len(),
            chars@ == s@,
            out@ == round_brackets(chars@.subrange(0, i as int)),
        decreases chars.len() - i,
    {
        let c = chars[i];
        let d = if c == ']' {
            ')'
        } else if c == '[' {
            '('
        } else {
            c
        };
        push_char(&mut out, d);
        assert(out@ =~= round_brackets(chars@.subrange(0, i + 1)));
        i = i + 1;
    }
    assert(chars@.subrange(0, chars.len() as int) =~= chars@);
    out
}

/// Mathematical value of an optional text.
pub open spec fn opt_text(o: Option<String>) -> Option<Seq<char>> {
    match o {
        Some(s) => Some(s@),
        None => None,
    }
}

/// Mathematical value of a list of texts.
pub open spec fn texts(items: Seq<String>) -> Seq<Seq<char>> {
    items.map_values(|s: String| s@)
}

/// Whether one of `items[..upto]` is the text `key`.
pub fn has_text(items: &Vec<String>, upto: usize, key: &str) -> (out: bool)
    requires
        upto <= items.len(),
    ensures
        out == texts(items@).subrange(0, upto as int).contains(key@),
{
    let ghost all = texts(items@).subrange(0, upto as int);
    let mut i: usize = 0;
    while i < upto
        invariant
            i <= upto <= items.len(),
            all == texts(items@).subrange(0, upto as int),
            forall|k: int| 0 <= k < i ==> all[k] != key@,
        decreases upto - i,
    {
        assert(all[i as int] == items@[i as int]@);
        if same_text(items[i].as_str(), key) {
            return true;
        }
        i = i + 1;
    }
    false
}

/// Whether two texts are the same.
pub fn same_text(a: &str, b: &str) -> (out: bool)
    ensures
        out == (a@ == b@),
{
    let x = chars_of(a);
    let y = chars_of(b);
    if x.len() != y.len() {
        return false;
    }
    let mut i: usize = 0;
    while i < x.len()
        invariant
            i <= x.len(),
            x.len() == y.len(),
            x@ == a@,
            y@ == b@,
            forall|k: int| 0 <= k < i ==> x@[k] == y@[k],
        decreases x.len() - i,
    {
        if x[i] != y[i] {
            return false;
        }
        i = i + 1;
    }
    assert(x@ =~= y@);
    true
}

/// `s` in lower case, as `str::to_lowercase` maps it.
pub uninterp spec fn lowercase(s: Seq<char>) -> Seq<char>;

/// `str::to_lowercase`: the lowercase equivalent of `s` as a new string. The
/// contract only gives the result its name: it is a function of `s` alone.
#[verifier::external_body]
pub(crate) fn to_lowercase(s: &str) -> (out: String)
    ensures
        out@ == lowercase(s@),
{
    s.to_lowercase()
}

} // verus!

