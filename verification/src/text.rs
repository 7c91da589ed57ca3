//! Text handling: prefixes, trimming, words and decimal numbers over the
//! characters of a string.

use vstd::prelude::*;
use vstd::string::*;

verus! {

/// `s` begins with `prefix`.
pub open spec fn has_prefix(s: Seq<char>, prefix: Seq<char>) -> bool {
    prefix.len() <= s.len() && s.take(prefix.len() as int) == prefix
}

/// `s` ends with `suffix`.
pub open spec fn has_suffix(s: Seq<char>, suffix: Seq<char>) -> bool {
    suffix.len() <= s.len() && s.skip(s.len() - suffix.len()) == suffix
}

/// `needle` stands in `s` at position `at`.
pub open spec fn found_at(s: Seq<char>, needle: Seq<char>, at: int) -> bool {
    0 <= at && at + needle.len() <= s.len() && s.subrange(at, at + needle.len()) == needle
}

/// `needle` stands somewhere in `s`.
pub open spec fn has_part(s: Seq<char>, needle: Seq<char>) -> bool {
    exists|at: int| found_at(s, needle, at)
}

/// The characters with the Unicode property `White_Space`.
pub open spec fn is_space(c: char) -> bool {
    ||| '\u{9}' <= c <= '\u{d}'
    ||| c == '\u{20}'
    ||| c == '\u{85}'
    ||| c == '\u{a0}'
    ||| c == '\u{1680}'
    ||| '\u{2000}' <= c <= '\u{200a}'
    ||| c == '\u{2028}'
    ||| c == '\u{2029}'
    ||| c == '\u{202f}'
    ||| c == '\u{205f}'
    ||| c == '\u{3000}'
}

/// `s` without its leading white space.
pub open spec fn trimmed_start(s: Seq<char>) -> Seq<char>
    decreases s.len(),
{
    if s.len() > 0 && is_space(s[0]) {
        trimmed_start(s.drop_first())
    } else {
        s
    }
}

/// `s` without its trailing white space.
pub open spec fn trimmed_end(s: Seq<char>) -> Seq<char>
    decreases s.len(),
{
    if s.len() > 0 && is_space(s.last()) {
        trimmed_end(s.drop_last())
    } else {
        s
    }
}

/// `s` without white space at either end.
pub open spec fn trimmed(s: Seq<char>) -> Seq<char> {
    trimmed_end(trimmed_start(s))
}

/// The longest prefix of `s` that holds no white space.
pub open spec fn leading_word(s: Seq<char>) -> Seq<char>
    decreases s.len(),
{
    if s.len() > 0 && !is_space(s[0]) {
        seq![s[0]] + leading_word(s.drop_first())
    } else {
        Seq::empty()
    }
}

/// The word number `n` (from zero) of `s`, where words are parted by white space.
pub open spec fn word_at(s: Seq<char>, n: nat) -> Option<Seq<char>>
    decreases n,
{
    let rest = trimmed_start(s);
    if rest.len() == 0 {
        None
    } else if n == 0 {
        Some(leading_word(rest))
    } else {
        word_at(rest.skip(leading_word(rest).len() as int), (n - 1) as nat)
    }
}

/// The character of a decimal digit.
pub open spec fn digit_char(d: nat) -> char {
    if d == 0 {
        '0'
    } else if d == 1 {
        '1'
    } else if d == 2 {
        '2'
    } else if d == 3 {
        '3'
    } else if d == 4 {
        '4'
    } else if d == 5 {
        '5'
    } else if d == 6 {
        '6'
    } else if d == 7 {
        '7'
    } else if d == 8 {
        '8'
    } else {
        '9'
    }
}

/// A number in decimal, without leading zeros.
pub open spec fn decimal(n: nat) -> Seq<char>
    decreases n,
{
    if n < 10 {
        seq![digit_char(n)]
    } else {
        decimal(n / 10).push(digit_char(n % 10))
    }
}

pub open spec fn is_digit(c: char) -> bool {
    '0' <= c <= '9'
}

/// `s` holds digits alone, and at least one.
pub open spec fn all_digits(s: Seq<char>) -> bool {
    s.len() > 0 && forall|i: int| 0 <= i < s.len() ==> is_digit(#[trigger] s[i])
}

/// The number that a run of digits stands for.
pub open spec fn digits_value(s: Seq<char>) -> nat
    decreases s.len(),
{
    if s.len() == 0 {
        0
    } else {
        10 * digits_value(s.drop_last()) + (s.last() as nat - '0' as nat) as nat
    }
}

/// The number written in `s`: digits alone, at least one, with an optional `+` before them.
pub open spec fn unsigned_value(s: Seq<char>) -> Option<nat> {
    let digits = if s.len() > 0 && s[0] == '+' {
        s.drop_first()
    } else {
        s
    };
    if all_digits(digits) {
        Some(digits_value(digits))
    } else {
        None
    }
}

/// A decimal number holds digits alone, and at least one.
pub proof fn lemma_decimal_digits(n: nat)
    ensures
        all_digits(decimal(n)),
    decreases n,
{
    if n >= 10 {
        lemma_decimal_digits(n / 10);
    }
}

proof fn lemma_decimal_value(n: nat)
    ensures
        digits_value(decimal(n)) == n,
    decreases n,
{
    if n < 10 {
        assert(decimal(n).drop_last() =~= Seq::<char>::empty());
        assert(digits_value(decimal(n).drop_last()) == 0);
    } else {
        lemma_decimal_value(n / 10);
        assert(decimal(n).drop_last() =~= decimal(n / 10));
        assert(decimal(n).last() == digit_char(n % 10));
    }
}

/// Reading a number that was written in decimal gives the number back.
pub proof fn law_decimal_round_trip(n: nat)
    ensures
        unsigned_value(decimal(n)) == Some(n),
{
    lemma_decimal_digits(n);
    lemma_decimal_value(n);
    assert(is_digit(decimal(n)[0]));
}

/// The characters of a string, in order.
pub fn chars_of(s: &str) -> (v: Vec<char>)
    ensures
        v@ == s@,
{
    let mut v: Vec<char> = Vec::new();
    for c in it: s.chars()
        invariant
            v@ == it.seq().take(it.index()),
            it.seq() == s@,
    {
        v.push(c);
        assert(it.seq().take(it.index() + 1) =~= it.seq().take(it.index()).push(c));
    }
    assert(v@ =~= s@);
    v
}

/// Two strings hold the same characters.
pub fn same_text(a: &str, b: &str) -> (same: bool)
    ensures
        same == (a@ == b@),
{
    let left = a.to_owned();
    let right = b.to_owned();
    left == right
}

/// One text after the other.
pub fn cat(a: &str, b: &str) -> (s: String)
    ensures
        s@ == a@ + b@,
{
    let mut s = a.to_owned();
    s.append(b);
    s
}

/// Three texts in a row.
pub fn cat3(a: &str, b: &str, c: &str) -> (s: String)
    ensures
        s@ == a@ + b@ + c@,
{
    let mut s = cat(a, b);
    s.append(c);
    s
}

/// Four texts in a row.
pub fn cat4(a: &str, b: &str, c: &str, d: &str) -> (s: String)
    ensures
        s@ == a@ + b@ + c@ + d@,
{
    let mut s = cat3(a, b, c);
    s.append(d);
    s
}

/// Whether `s` begins with `prefix`.
pub fn starts_with(s: &str, prefix: &str) -> (found: bool)
    ensures
        found == has_prefix(s@, prefix@),
{
    let head = prefix.unicode_len();
    if s.unicode_len() < head {
        return false;
    }
    same_text(s.substring_char(0, head), prefix)
}

/// Whether `s` ends with `suffix`.
pub fn ends_with(s: &str, suffix: &str) -> (found: bool)
    ensures
        found == has_suffix(s@, suffix@),
{
    let all = s.unicode_len();
    let tail = suffix.unicode_len();
    if all < tail {
        return false;
    }
    same_text(s.substring_char(all - tail, all), suffix)
}

/// Whether `needle` stands somewhere in `s`.
pub fn contains_text(s: &str, needle: &str) -> (found: bool)
    ensures
        found == has_part(s@, needle@),
{
    let all = s.unicode_len();
    let part = needle.unicode_len();
    if all < part {
        return false;
    }
    let mut at: usize = 0;
    while at <= all - part
        invariant
            all == s@.len(),
            part == needle@.len(),
            part <= all,
            at <= all - part + 1,
            forall|i: int| 0 <= i < at ==> !#[trigger] found_at(s@, needle@, i),
        decreases all - part + 1 - at,
    {
        if same_text(s.substring_char(at, at + part), needle) {
            assert(found_at(s@, needle@, at as int));
            return true;
        }
        if at == all - part {
            return false;
        }
        at = at + 1;
    }
    false
}

/// Whether a character is white space.
pub fn is_whitespace(c: char) -> (space: bool)
    ensures
        space == is_space(c),
{
    ('\u{9}' <= c && c <= '\u{d}') || c == '\u{20}' || c == '\u{85}' || c == '\u{a0}' || c
        == '\u{1680}' || ('\u{2000}' <= c && c <= '\u{200a}') || c == '\u{2028}' || c == '\u{2029}'
        || c == '\u{202f}' || c == '\u{205f}' || c == '\u{3000}'
}

/// `s` without its leading white space.
pub fn trim_start<'a>(s: &'a str) -> (t: &'a str)
    ensures
        t@ == trimmed_start(s@),
{
    let chars = chars_of(s);
    let mut from: usize = 0;
    assert(s@.skip(0) =~= s@);
    while from < chars.len() && is_whitespace(chars[from])
        invariant
            chars@ == s@,
            from <= chars.len(),
            trimmed_start(s@.skip(from as int)) == trimmed_start(s@),
        decreases chars.len() - from,
    {
        assert(s@.skip(from as int).drop_first() =~= s@.skip(from + 1));
        from = from + 1;
    }
    assert(s@.skip(from as int) =~= s@.subrange(from as int, s@.len() as int));
    s.substring_char(from, chars.len())
}

/// `s` without its trailing white space.
pub fn trim_end<'a>(s: &'a str) -> (t: &'a str)
    ensures
        t@ == trimmed_end(s@),
{
    let chars = chars_of(s);
    let mut to: usize = chars.len();
    assert(s@.take(s@.len() as int) =~= s@);
    while to > 0 && is_whitespace(chars[to - 1])
        invariant
            chars@ == s@,
            to <= chars.len(),
            trimmed_end(s@.take(to as int)) == trimmed_end(s@),
        decreases to,
    {
        assert(s@.take(to as int).drop_last() =~= s@.take(to - 1));
        to = to - 1;
    }
    assert(s@.take(to as int) =~= s@.subrange(0, to as int));
    s.substring_char(0, to)
}

/// `s` without white space at either end.
pub fn trim<'a>(s: &'a str) -> (t: &'a str)
    ensures
        t@ == trimmed(s@),
{
    trim_end(trim_start(s))
}

/// The longest prefix of `s` that holds no white space, and what follows it.
pub fn split_word<'a>(s: &'a str) -> (parts: (&'a str, &'a str))
    ensures
        parts.0@ == leading_word(s@),
        parts.1@ == s@.skip(leading_word(s@).len() as int),
{
    let chars = chars_of(s);
    let mut to: usize = 0;
    assert(s@.skip(0) =~= s@);
    assert(s@.take(0) + leading_word(s@) =~= leading_word(s@));
    while to < chars.len() && !is_whitespace(chars[to])
        invariant
            chars@ == s@,
            to <= chars.len(),
            leading_word(s@) == s@.take(to as int) + leading_word(s@.skip(to as int)),
        decreases chars.len() - to,
    {
        assert(s@.skip(to as int).drop_first() =~= s@.skip(to + 1));
        assert(s@.take(to as int) + (seq![s@[to as int]] + leading_word(s@.skip(to + 1))) =~= s@.take(
            to + 1,
        ) + leading_word(s@.skip(to + 1)));
        to = to + 1;
    }
    assert(leading_word(s@) =~= s@.take(to as int));
    assert(s@.take(to as int) =~= s@.subrange(0, to as int));
    assert(s@.skip(to as int) =~= s@.subrange(to as int, s@.len() as int));
    (s.substring_char(0, to), s.substring_char(to, chars.len()))
}

/// The word number `n` (from zero) of `s`, where words are parted by white space.
pub fn nth_word<'a>(s: &'a str, n: usize) -> (word: Option<&'a str>)
    ensures
        word matches Some(w) ==> word_at(s@, n as nat) == Some(w@),
        word is None ==> word_at(s@, n as nat) is None,
    decreases n,
{
    let rest = trim_start(s);
    if rest.is_empty() {
        return None;
    }
    let (word, after) = split_word(rest);
    if n == 0 {
        Some(word)
    } else {
        nth_word(after, n - 1)
    }
}

fn digit_text(d: u64) -> (s: &'static str)
    requires
        d < 10,
    ensures
        s@ == seq![digit_char(d as nat)],
{
    proof {
        reveal_strlit("0");
        reveal_strlit("1");
        reveal_strlit("2");
        reveal_strlit("3");
        reveal_strlit("4");
        reveal_strlit("5");
        reveal_strlit("6");
        reveal_strlit("7");
        reveal_strlit("8");
        reveal_strlit("9");
    }
    match d {
        0 => "0",
        1 => "1",
        2 => "2",
        3 => "3",
        4 => "4",
        5 => "5",
        6 => "6",
        7 => "7",
        8 => "8",
        _ => "9",
    }
}

/// A number in decimal.
pub fn decimal_text(n: u64) -> (s: String)
    ensures
        s@ == decimal(n as nat),
    decreases n,
{
    if n < 10 {
        digit_text(n).to_owned()
    } else {
        let mut s = decimal_text(n / 10);
        s.append(digit_text(n % 10));
        assert(s@ =~= decimal(n as nat / 10).push(digit_char(n as nat % 10)));
        s
    }
}

/// What stands in `s` before the first `stop`: all of it where there is none.
pub open spec fn before_char(s: Seq<char>, stop: char) -> Seq<char>
    decreases s.len(),
{
    if s.len() > 0 && s[0] != stop {
        seq![s[0]] + before_char(s.drop_first(), stop)
    } else {
        Seq::empty()
    }
}

/// What stands in `s` behind the last `stop`: all of it where there is none.
pub open spec fn after_last_char(s: Seq<char>, stop: char) -> Seq<char>
    decreases s.len(),
{
    if s.len() > 0 && s.last() != stop {
        after_last_char(s.drop_last(), stop).push(s.last())
    } else {
        Seq::empty()
    }
}

/// What stands in `s` before the first `stop`.
pub fn split_before<'a>(s: &'a str, stop: char) -> (part: &'a str)
    ensures
        part@ == before_char(s@, stop),
{
    let chars = chars_of(s);
    let mut to: usize = 0;
    assert(s@.skip(0) =~= s@);
    assert(s@.take(0) + before_char(s@, stop) =~= before_char(s@, stop));
    while to < chars.len() && chars[to] != stop
        invariant
            chars@ == s@,
            to <= chars.len(),
            before_char(s@, stop) == s@.take(to as int) + before_char(s@.skip(to as int), stop),
        decreases chars.len() - to,
    {
        assert(s@.skip(to as int).drop_first() =~= s@.skip(to + 1));
        assert(s@.take(to as int) + (seq![s@[to as int]] + before_char(s@.skip(to + 1), stop))
            =~= s@.take(to + 1) + before_char(s@.skip(to + 1), stop));
        to = to + 1;
    }
    assert(before_char(s@, stop) =~= s@.take(to as int));
    assert(s@.take(to as int) =~= s@.subrange(0, to as int));
    s.substring_char(0, to)
}

/// What stands in `s` behind the last `stop`.
pub fn split_after_last<'a>(s: &'a str, stop: char) -> (part: &'a str)
    ensures
        part@ == after_last_char(s@, stop),
{
    let chars = chars_of(s);
    let mut from: usize = chars.len();
    assert(s@.take(s@.len() as int) =~= s@);
    assert(after_last_char(s@, stop) + s@.skip(s@.len() as int) =~= after_last_char(s@, stop));
    while from > 0 && chars[from - 1] != stop
        invariant
            chars@ == s@,
            from <= chars.len(),
            after_last_char(s@, stop) == after_last_char(s@.take(from as int), stop) + s@.skip(
                from as int,
            ),
        decreases from,
    {
        assert(s@.take(from as int).drop_last() =~= s@.take(from - 1));
        assert(after_last_char(s@.take(from - 1), stop).push(s@[from - 1]) + s@.skip(from as int)
            =~= after_last_char(s@.take(from - 1), stop) + s@.skip(from - 1));
        from = from - 1;
    }
    assert(after_last_char(s@, stop) =~= s@.skip(from as int));
    assert(s@.skip(from as int) =~= s@.subrange(from as int, s@.len() as int));
    s.substring_char(from, chars.len())
}

/// Nothing but white space.
pub open spec fn all_space(s: Seq<char>) -> bool {
    forall|i: int| 0 <= i < s.len() ==> is_space(#[trigger] s[i])
}

/// No white space at all.
pub open spec fn no_space(s: Seq<char>) -> bool {
    forall|i: int| 0 <= i < s.len() ==> !is_space(#[trigger] s[i])
}

/// A text begins with a prefix exactly where it is the prefix and something behind
/// it.
pub proof fn law_prefix(s: Seq<char>, prefix: Seq<char>, rest: Seq<char>)
    ensures
        has_prefix(prefix + rest, prefix),
        has_prefix(s, prefix) ==> s == prefix + s.skip(prefix.len() as int),
        s.len() < prefix.len() ==> !has_prefix(s, prefix),
        (exists|i: int| 0 <= i < prefix.len() && i < s.len() && s[i] != prefix[i]) ==> !has_prefix(
            s,
            prefix,
        ),
{
    assert((prefix + rest).take(prefix.len() as int) =~= prefix);
    if has_prefix(s, prefix) {
        assert(s =~= s.take(prefix.len() as int) + s.skip(prefix.len() as int));
        assert forall|i: int| 0 <= i < prefix.len() implies s[i] == prefix[i] by {
            assert(s.take(prefix.len() as int)[i] == s[i]);
        }
    }
}

/// A text ends with a suffix exactly where it is something and the suffix behind
/// it.
pub proof fn law_suffix(s: Seq<char>, suffix: Seq<char>, start: Seq<char>)
    ensures
        has_suffix(start + suffix, suffix),
        has_suffix(s, suffix) ==> suffix.len() <= s.len() && s == s.take(
            s.len() - suffix.len(),
        ) + suffix,
        s.len() < suffix.len() ==> !has_suffix(s, suffix),
{
    let all = start + suffix;
    assert(all.skip(all.len() - suffix.len()) =~= suffix);
    if has_suffix(s, suffix) {
        assert(s =~= s.take(s.len() - suffix.len()) + s.skip(s.len() - suffix.len()));
    }
}

/// A text holds a part exactly where it is something, the part, and something.
pub proof fn law_part(s: Seq<char>, part: Seq<char>, before: Seq<char>, after: Seq<char>)
    ensures
        has_part(before + part + after, part),
        has_part(s, part) ==> exists|i: int|
            0 <= i && i + part.len() <= s.len() && #[trigger] s.take(i) + part + s.skip(
                i + part.len(),
            ) == s,
{
    let all = before + part + after;
    assert(all.subrange(before.len() as int, (before.len() + part.len()) as int) =~= part);
    assert(found_at(all, part, before.len() as int));
    if has_part(s, part) {
        let i = choose|i: int| found_at(s, part, i);
        assert(s.take(i) + s.subrange(i, i + part.len()) + s.skip(i + part.len()) =~= s);
    }
}

/// White space in front of a text is trimmed away, and no more.
pub proof fn lemma_trimmed_start(before: Seq<char>, s: Seq<char>)
    requires
        all_space(before),
        s.len() > 0 ==> !is_space(s[0]),
    ensures
        trimmed_start(before + s) == s,
    decreases before.len(),
{
    if before.len() > 0 {
        let fewer = before.drop_first();
        assert forall|i: int| 0 <= i < fewer.len() implies is_space(#[trigger] fewer[i]) by {
            assert(fewer[i] == before[i + 1]);
        }
        lemma_trimmed_start(fewer, s);
        assert((before + s).drop_first() =~= fewer + s);
        assert((before + s)[0] == before[0]);
    } else {
        assert(before + s =~= s);
    }
}

/// White space behind a text is trimmed away, and no more.
pub proof fn lemma_trimmed_end(s: Seq<char>, after: Seq<char>)
    requires
        all_space(after),
        s.len() > 0 ==> !is_space(s.last()),
    ensures
        trimmed_end(s + after) == s,
    decreases after.len(),
{
    if after.len() > 0 {
        let fewer = after.drop_last();
        assert forall|i: int| 0 <= i < fewer.len() implies is_space(#[trigger] fewer[i]) by {
            assert(fewer[i] == after[i]);
        }
        lemma_trimmed_end(s, fewer);
        assert((s + after).drop_last() =~= s + fewer);
        assert((s + after).last() == after.last());
    } else {
        assert(s + after =~= s);
    }
}

/// Trimming takes away exactly the white space around a text, at either end or at
/// both.
pub proof fn law_trimmed_is_the_middle(before: Seq<char>, middle: Seq<char>, after: Seq<char>)
    requires
        all_space(before),
        all_space(after),
        middle.len() > 0 ==> !is_space(middle[0]) && !is_space(middle.last()),
    ensures
        trimmed(before + middle + after) == middle,
        middle.len() > 0 ==> trimmed_start(before + middle + after) == middle + after,
        trimmed_end(middle + after) == middle,
{
    lemma_trimmed_end(middle, after);
    if middle.len() > 0 {
        lemma_trimmed_start(before, middle + after);
        assert(before + middle + after =~= before + (middle + after));
    } else {
        let all = before + middle + after;
        assert(all =~= before + after);
        assert forall|i: int| 0 <= i < all.len() implies is_space(#[trigger] all[i]) by {
            if i < before.len() {
                assert(all[i] == before[i]);
            } else {
                assert(all[i] == after[i - before.len()]);
            }
        }
        lemma_trimmed_start(all, Seq::empty());
        assert(all + Seq::<char>::empty() =~= all);
        assert(trimmed(all) =~= middle);
    }
}

/// The leading word reaches up to the first white space.
pub proof fn law_leading_word_ends_at_space(word: Seq<char>, rest: Seq<char>)
    requires
        no_space(word),
        rest.len() > 0 ==> is_space(rest[0]),
    ensures
        leading_word(word + rest) == word,
    decreases word.len(),
{
    let all = word + rest;
    if word.len() > 0 {
        let tail = word.drop_first();
        assert forall|i: int| 0 <= i < tail.len() implies !is_space(#[trigger] tail[i]) by {
            assert(tail[i] == word[i + 1]);
        }
        law_leading_word_ends_at_space(tail, rest);
        assert(all.drop_first() =~= tail + rest);
        assert(all[0] == word[0]);
        assert(seq![word[0]] + tail =~= word);
    } else {
        assert(leading_word(all) =~= word);
    }
}

/// Words are counted from the front, with any white space between them: the first
/// is the one behind the leading white space, and taking it away moves every other
/// one up.
pub proof fn law_words_are_counted(gap: Seq<char>, word: Seq<char>, rest: Seq<char>, n: nat)
    requires
        all_space(gap),
        word.len() > 0,
        no_space(word),
        rest.len() > 0 ==> is_space(rest[0]),
    ensures
        word_at(gap + word + rest, 0) == Some(word),
        word_at(gap + word + rest, n + 1) == word_at(rest, n),
        word_at(gap, n) is None,
{
    let all = gap + word + rest;
    assert(all =~= gap + (word + rest));
    lemma_trimmed_start(gap, word + rest);
    law_leading_word_ends_at_space(word, rest);
    assert((word + rest).skip(word.len() as int) =~= rest);
    lemma_trimmed_start(gap, Seq::empty());
    assert(gap + Seq::<char>::empty() =~= gap);
}

/// A number in decimal has digits alone, no zero in front but for the number zero,
/// and appending a digit makes ten times the number and the digit.
pub proof fn law_decimal_form(n: nat, d: nat)
    requires
        d < 10,
    ensures
        all_digits(decimal(n)),
        decimal(n)[0] == '0' <==> n == 0,
        n > 0 ==> decimal(10 * n + d) == decimal(n).push(digit_char(d)),
        decimal(d).len() == 1,
        digit_char(d) as nat == '0' as nat + d,
    decreases n,
{
    lemma_decimal_digits(n);
    if n >= 10 {
        law_decimal_form(n / 10, d);
        assert(decimal(n)[0] == decimal(n / 10)[0]);
    }
    if n > 0 {
        assert((10 * n + d) / 10 == n && (10 * n + d) % 10 == d);
    }
}

/// Different numbers are written differently.
pub proof fn law_decimal_is_unambiguous(a: nat, b: nat)
    requires
        decimal(a) == decimal(b),
    ensures
        a == b,
{
    law_decimal_round_trip(a);
    law_decimal_round_trip(b);
}

/// A text is a number exactly where it is digits, at least one, with or without a
/// plus sign in front; the sign changes nothing, and each digit counts ten times
/// what stands behind it.
pub proof fn law_numbers_are_digits(s: Seq<char>, c: char)
    ensures
        all_digits(s) ==> unsigned_value(s) is Some && unsigned_value(seq!['+'] + s)
            == unsigned_value(s),
        all_digits(s) && is_digit(c) ==> unsigned_value(s.push(c)) == Some(
            (10 * unsigned_value(s)->0 + (c as nat - '0' as nat)) as nat,
        ),
        is_digit(c) ==> unsigned_value(seq![c]) == Some((c as nat - '0' as nat) as nat),
        s.len() == 0 ==> unsigned_value(s) is None && unsigned_value(seq!['+']) is None,
        s.len() > 0 && s[0] != '+' && !all_digits(s) ==> unsigned_value(s) is None,
        !all_digits(s) ==> unsigned_value(seq!['+'] + s) is None,
{
    let signed = seq!['+'] + s;
    assert(signed.drop_first() =~= s);
    assert(signed[0] == '+');
    if all_digits(s) {
        assert(is_digit(s[0]));
        if is_digit(c) {
            let more = s.push(c);
            assert(more.drop_last() =~= s);
            assert(more[0] == s[0]);
            assert forall|i: int| 0 <= i < more.len() implies is_digit(#[trigger] more[i]) by {
                if i < s.len() {
                    assert(more[i] == s[i]);
                }
            }
        }
    }
    if is_digit(c) {
        assert(seq![c].drop_last() =~= Seq::<char>::empty());
        assert(digits_value(Seq::<char>::empty()) == 0);
    }
    assert(seq!['+'].drop_first() =~= Seq::<char>::empty());
}

/// A digit is one of the ten characters from `0` to `9`.
pub proof fn law_ten_digits(c: char)
    ensures
        is_digit(c) <==> '0' <= c && c <= '9',
{
}

/// What stands before the first of a character is found whatever follows it, and a
/// text without the character is all of it.
pub proof fn law_before_char(start: Seq<char>, stop: char, rest: Seq<char>)
    requires
        !start.contains(stop),
    ensures
        before_char(start.push(stop) + rest, stop) == start,
        before_char(start, stop) == start,
    decreases start.len(),
{
    let all = start.push(stop) + rest;
    if start.len() > 0 {
        let tail = start.drop_first();
        assert forall|i: int| 0 <= i < tail.len() implies #[trigger] tail[i] != stop by {
            assert(tail[i] == start[i + 1]);
            assert(start.contains(start[i + 1]));
        }
        law_before_char(tail, stop, rest);
        assert(start.contains(start[0]));
        assert(all.drop_first() =~= tail.push(stop) + rest);
        assert(all[0] == start[0]);
        assert(seq![start[0]] + tail =~= start);
    } else {
        assert(all[0] == stop);
        assert(before_char(all, stop) =~= start);
        assert(before_char(start, stop) =~= start);
    }
}

/// What stands behind the last of a character is found whatever precedes it, and a
/// text without the character is all of it.
pub proof fn law_after_last_char(start: Seq<char>, stop: char, rest: Seq<char>)
    requires
        !rest.contains(stop),
    ensures
        after_last_char(start.push(stop) + rest, stop) == rest,
        after_last_char(rest, stop) == rest,
    decreases rest.len(),
{
    let all = start.push(stop) + rest;
    if rest.len() > 0 {
        let front = rest.drop_last();
        assert forall|i: int| 0 <= i < front.len() implies #[trigger] front[i] != stop by {
            assert(front[i] == rest[i]);
            assert(rest.contains(rest[i]));
        }
        law_after_last_char(start, stop, front);
        assert(rest.contains(rest[rest.len() - 1]));
        assert(all.drop_last() =~= start.push(stop) + front);
        assert(all.last() == rest.last());
        assert(front.push(rest.last()) =~= rest);
    } else {
        assert(all.last() == stop);
        assert(after_last_char(all, stop) =~= rest);
        assert(after_last_char(rest, stop) =~= rest);
    }
}

/// White space is one of the twenty-five characters that Unicode calls so: the six
/// of ASCII, and none of the printable ones.
pub proof fn law_white_space(c: char)
    ensures
        c == ' ' || c == '\t' || c == '\n' || c == '\r' ==> is_space(c),
        '!' <= c && c <= '~' ==> !is_space(c),
        c > '\u{3000}' ==> !is_space(c),
        is_space(c) && c < '\u{80}' ==> c == ' ' || ('\t' <= c && c <= '\r'),
{
}

} // verus!
