//! Text helpers shared by the modules that render statements, URLs, command
//! lines and log lines: decimal numbers, joining with a separator, trimming
//! and comparing.

use vstd::prelude::*;
use vstd::string::*;

verus! {

/// The ten decimal digits, in order.
pub open spec fn digits() -> Seq<char> {
    "0123456789"@
}

/// The decimal rendering of `n`, without sign or leading zeros.
pub open spec fn decimal(n: nat) -> Seq<char>
    decreases n,
{
    if n < 10 {
        digits().subrange(n as int, n as int + 1)
    } else {
        decimal(n / 10) + digits().subrange((n % 10) as int, (n % 10) as int + 1)
    }
}

/// The decimal rendering of `n`, padded with leading zeros to at least
/// `width` characters.
pub open spec fn zero_padded(n: nat, width: nat) -> Seq<char> {
    let text = decimal(n);
    if text.len() >= width {
        text
    } else {
        Seq::new((width - text.len()) as nat, |i: int| '0') + text
    }
}

/// `parts` concatenated, with `separator` between neighbours.
pub open spec fn join(parts: Seq<Seq<char>>, separator: Seq<char>) -> Seq<char>
    decreases parts.len(),
{
    if parts.len() == 0 {
        Seq::empty()
    } else if parts.len() == 1 {
        parts[0]
    } else {
        join(parts.drop_last(), separator) + separator + parts.last()
    }
}

/// `text` without the run of `c` at its end.
pub open spec fn trim_end(text: Seq<char>, c: char) -> Seq<char>
    decreases text.len(),
{
    if text.len() > 0 && text.last() == c {
        trim_end(text.drop_last(), c)
    } else {
        text
    }
}

/// `text` without the run of `c` at its start.
pub open spec fn trim_start(text: Seq<char>, c: char) -> Seq<char>
    decreases text.len(),
{
    if text.len() > 0 && text.first() == c {
        trim_start(text.drop_first(), c)
    } else {
        text
    }
}

/// Whether `text` ends with `suffix`.
pub open spec fn ends_with(text: Seq<char>, suffix: Seq<char>) -> bool {
    text.len() >= suffix.len() && text.skip(text.len() - suffix.len()) == suffix
}

/// Joining one more part onto a non-empty prefix adds the separator and the part.
pub proof fn lemma_join_push(parts: Seq<Seq<char>>, separator: Seq<char>, part: Seq<char>)
    ensures
        join(parts.push(part), separator) == if parts.len() == 0 {
            part
        } else {
            join(parts, separator) + separator + part
        },
{
    let extended = parts.push(part);
    assert(extended.drop_last() =~= parts);
    assert(extended.last() == part);
}

/// What trimming the end leaves is the start of the text, does not end in
/// `c`, and is followed by nothing but `c`.
pub proof fn lemma_trim_end(text: Seq<char>, c: char)
    ensures
        ({
            let kept = trim_end(text, c);
            &&& kept.len() <= text.len()
            &&& kept == text.take(kept.len() as int)
            &&& kept.len() > 0 ==> kept.last() != c
            &&& forall|i: int| kept.len() <= i < text.len() ==> text[i] == c
        }),
    decreases text.len(),
{
    if text.len() > 0 && text.last() == c {
        lemma_trim_end(text.drop_last(), c);
        let kept = trim_end(text, c);
        assert(kept =~= text.take(kept.len() as int));
        assert forall|i: int| kept.len() <= i < text.len() implies text[i] == c by {
            if i < text.len() - 1 {
                assert(text[i] == text.drop_last()[i]);
            }
        }
    } else {
        assert(text =~= text.take(text.len() as int));
    }
}

/// What trimming the start leaves is the end of the text, does not start
/// with `c`, and is preceded by nothing but `c`.
pub proof fn lemma_trim_start(text: Seq<char>, c: char)
    ensures
        ({
            let kept = trim_start(text, c);
            &&& kept.len() <= text.len()
            &&& kept == text.skip(text.len() - kept.len())
            &&& kept.len() > 0 ==> kept.first() != c
            &&& forall|i: int| 0 <= i < text.len() - kept.len() ==> text[i] == c
        }),
    decreases text.len(),
{
    if text.len() > 0 && text.first() == c {
        lemma_trim_start(text.drop_first(), c);
        let kept = trim_start(text, c);
        assert(kept =~= text.skip(text.len() - kept.len()));
        assert forall|i: int| 0 <= i < text.len() - kept.len() implies text[i] == c by {
            if i > 0 {
                assert(text[i] == text.drop_first()[i - 1]);
            }
        }
    } else {
        assert(text =~= text.skip(0));
    }
}

/// std's `String::push`: the text grows by the one character at its end.
pub assume_specification[ String::push ](text: &mut String, c: char)
    ensures
        final(text)@ == old(text)@.push(c),
;

/// Renders `n` in decimal.
pub fn decimal_string(n: u128) -> (text: String)
    ensures
        text@ == decimal(n as nat),
    decreases n,
{
    proof {
        reveal_strlit("0123456789");
    }
    if n < 10 {
        let digit = "0123456789".substring_char(n as usize, n as usize + 1);
        String::from_str(digit)
    } else {
        let mut text = decimal_string(n / 10);
        let last = n % 10;
        let digit = "0123456789".substring_char(last as usize, last as usize + 1);
        text.append(digit);
        text
    }
}

/// Whether `text` ends with `suffix`.
pub fn has_suffix(text: &str, suffix: &str) -> (found: bool)
    ensures
        found == ends_with(text@, suffix@),
{
    let len = text.unicode_len();
    let tail = suffix.unicode_len();
    if len < tail {
        return false;
    }
    let start = len - tail;
    let ghost end = text@.skip(start as int);
    let mut i: usize = 0;
    while i < tail
        invariant
            i <= tail,
            tail == suffix@.len(),
            len == text@.len(),
            start == len - tail,
            end == text@.skip(start as int),
            forall|j: int| 0 <= j < i ==> end[j] == suffix@[j],
        decreases tail - i,
    {
        assert(end[i as int] == text@[start + i]);
        if text.get_char(start + i) != suffix.get_char(i) {
            assert(end != suffix@);
            return false;
        }
        i += 1;
    }
    assert(end =~= suffix@);
    true
}

/// Whether two pieces of text hold the same characters.
pub fn same_text(left: &str, right: &str) -> (same: bool)
    ensures
        same == (left@ == right@),
{
    let left_owned = left.to_owned();
    let right_owned = right.to_owned();
    left_owned == right_owned
}

/// Concatenates `parts`, putting `separator` between neighbours.
pub fn join_strings(parts: &Vec<String>, separator: &str) -> (joined: String)
    ensures
        joined@ == join(parts.deep_view(), separator@),
{
    let ghost texts = parts.deep_view();
    let mut joined = String::new();
    let mut i: usize = 0;
    while i < parts.len()
        invariant
            i <= parts.len(),
            texts == parts.deep_view(),
            joined@ == join(texts.take(i as int), separator@),
        decreases parts.len() - i,
    {
        if i > 0 {
            joined.append(separator);
        }
        joined.append(parts[i].as_str());
        proof {
            lemma_join_push(texts.take(i as int), separator@, texts[i as int]);
            assert(texts.take(i as int).push(texts[i as int]) =~= texts.take(i as int + 1));
            assert(Seq::<char>::empty() + texts[i as int] =~= texts[i as int]);
        }
        i += 1;
    }
    assert(texts.take(parts.len() as int) =~= texts);
    joined
}

/// Removes the run of `c` at the end of `text`.
pub fn trim_end_matches(text: &str, c: char) -> (trimmed: &str)
    ensures
        trimmed@ == trim_end(text@, c),
{
    let mut end = text.unicode_len();
    assert(text@.take(end as int) =~= text@);
    while end > 0 && text.get_char(end - 1) == c
        invariant
            end <= text@.len(),
            trim_end(text@, c) == trim_end(text@.take(end as int), c),
        decreases end,
    {
        assert(text@.take(end as int).drop_last() =~= text@.take(end as int - 1));
        end -= 1;
    }
    text.substring_char(0, end)
}

/// Removes the run of `c` at the start of `text`.
pub fn trim_start_matches(text: &str, c: char) -> (trimmed: &str)
    ensures
        trimmed@ == trim_start(text@, c),
{
    let len = text.unicode_len();
    let mut start: usize = 0;
    assert(text@.skip(0) =~= text@);
    while start < len && text.get_char(start) == c
        invariant
            start <= len,
            len == text@.len(),
            trim_start(text@, c) == trim_start(text@.skip(start as int), c),
        decreases len - start,
    {
        assert(text@.skip(start as int).drop_first() =~= text@.skip(start as int + 1));
        start += 1;
    }
    assert(text@.skip(start as int) =~= text@.subrange(start as int, len as int));
    text.substring_char(start, len)
}

} // verus!
