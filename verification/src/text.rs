//! Text as sequences of characters: splitting on a separator, trimming
//! whitespace and reading decimal numbers.

use vstd::prelude::*;

verus! {

/// Whether a character has the Unicode property White_Space: the controls
/// from tab to carriage return, the space, next line, the no-break spaces,
/// the Ogham space mark, the spaces of fixed width, the line and paragraph
/// separators, the medium mathematical space and the ideographic space.
pub open spec fn is_whitespace(c: char) -> bool {
    ||| '\u{9}' <= c <= '\u{D}'
    ||| c == ' '
    ||| c == '\u{85}'
    ||| c == '\u{A0}'
    ||| c == '\u{1680}'
    ||| '\u{2000}' <= c <= '\u{200A}'
    ||| c == '\u{2028}'
    ||| c == '\u{2029}'
    ||| c == '\u{202F}'
    ||| c == '\u{205F}'
    ||| c == '\u{3000}'
}

/// `char::is_whitespace` of std, which tells whether a character has the
/// Unicode property White_Space. The result is `true` for exactly the
/// characters that `is_whitespace` lists.
#[verifier::external_body]
fn char_is_whitespace(c: char) -> (b: bool)
    ensures
        b == is_whitespace(c),
{
    c.is_whitespace()
}

/// Collecting characters into a `String` (`FromIterator<char>` of std). The
/// string holds exactly the characters of `chars`, in order.
#[verifier::external_body]
pub(crate) fn string_from_chars(chars: &Vec<char>) -> (s: String)
    ensures
        s@ == chars@,
{
    chars.iter().copied().collect()
}

/// The views of a sequence of character vectors.
pub open spec fn texts(segments: Seq<Vec<char>>) -> Seq<Seq<char>> {
    Seq::new(segments.len(), |i: int| segments[i]@)
}

/// The views of a sequence of strings.
pub open spec fn string_texts(strings: Seq<String>) -> Seq<Seq<char>> {
    Seq::new(strings.len(), |i: int| strings[i]@)
}

/// The segments of `s` between occurrences of `sep`. A text with `n`
/// separators has `n + 1` segments, some of which may be empty; the empty
/// text has one empty segment.
pub open spec fn split(s: Seq<char>, sep: char) -> Seq<Seq<char>>
    decreases s.len(),
{
    if s.len() == 0 {
        seq![Seq::empty()]
    } else {
        let before = split(s.drop_last(), sep);
        if s.last() == sep {
            before.push(Seq::empty())
        } else {
            before.drop_last().push(before.last().push(s.last()))
        }
    }
}

/// `s` without its leading whitespace.
pub open spec fn trim_start(s: Seq<char>) -> Seq<char>
    decreases s.len(),
{
    if s.len() > 0 && is_whitespace(s.first()) {
        trim_start(s.drop_first())
    } else {
        s
    }
}

/// `s` without its trailing whitespace.
pub open spec fn trim_end(s: Seq<char>) -> Seq<char>
    decreases s.len(),
{
    if s.len() > 0 && is_whitespace(s.last()) {
        trim_end(s.drop_last())
    } else {
        s
    }
}

/// `s` without leading and trailing whitespace.
pub open spec fn trim(s: Seq<char>) -> Seq<char> {
    trim_end(trim_start(s))
}

/// Each segment trimmed, and those that are then empty left out.
pub open spec fn non_blank(segments: Seq<Seq<char>>) -> Seq<Seq<char>>
    decreases segments.len(),
{
    if segments.len() == 0 {
        Seq::empty()
    } else {
        let before = non_blank(segments.drop_last());
        let last = trim(segments.last());
        if last.len() > 0 {
            before.push(last)
        } else {
            before
        }
    }
}

/// Whether `c` is one of the decimal digits `0` to `9`.
pub open spec fn is_digit(c: char) -> bool {
    '0' <= c <= '9'
}

/// The number that a decimal digit stands for.
pub open spec fn digit_value(c: char) -> nat {
    (c as u32 - '0' as u32) as nat
}

/// The number that a sequence of decimal digits writes, most significant
/// digit first.
pub open spec fn decimal_value(digits: Seq<char>) -> nat
    decreases digits.len(),
{
    if digits.len() == 0 {
        0
    } else {
        10 * decimal_value(digits.drop_last()) + digit_value(digits.last())
    }
}

/// Whether every character of `s` is a decimal digit.
pub open spec fn all_digits(s: Seq<char>) -> bool {
    forall|i: int| 0 <= i < s.len() ==> is_digit(#[trigger] s[i])
}

/// `s` without one leading plus sign, if it has one.
pub open spec fn unsigned_digits(s: Seq<char>) -> Seq<char> {
    if s.len() > 0 && s.first() == '+' {
        s.drop_first()
    } else {
        s
    }
}

/// The number that `s` writes: an optional plus sign, then one or more
/// decimal digits and nothing else, with a value that fits in `usize`.
pub open spec fn parse_usize(s: Seq<char>) -> Option<usize> {
    let digits = unsigned_digits(s);
    if digits.len() > 0 && all_digits(digits) && decimal_value(digits) <= usize::MAX {
        Some(decimal_value(digits) as usize)
    } else {
        None
    }
}

/// The decimal digit that stands for `d`.
pub open spec fn digit_char(d: nat) -> char
    recommends
        d < 10,
{
    ('0' as u32 + d) as char
}

/// The decimal representation of `n`, without leading zeros.
pub open spec fn decimal_text(n: nat) -> Seq<char>
    decreases n,
{
    if n < 10 {
        seq![digit_char(n)]
    } else {
        decimal_text(n / 10).push(digit_char(n % 10))
    }
}

/// A text has at least one segment, whatever the separator.
pub proof fn lemma_split_not_empty(s: Seq<char>, sep: char)
    ensures
        split(s, sep).len() > 0,
    decreases s.len(),
{
    if s.len() > 0 {
        lemma_split_not_empty(s.drop_last(), sep);
    }
}

/// A text without the separator is its own only segment.
pub proof fn lemma_split_without_separator(s: Seq<char>, sep: char)
    requires
        forall|i: int| 0 <= i < s.len() ==> s[i] != sep,
    ensures
        split(s, sep) == seq![s],
    decreases s.len(),
{
    if s.len() == 0 {
        assert(s =~= Seq::<char>::empty());
    } else {
        assert forall|i: int| 0 <= i < s.drop_last().len() implies s.drop_last()[i] != sep by {
            assert(s.drop_last()[i] == s[i]);
        }
        lemma_split_without_separator(s.drop_last(), sep);
        assert(s.last() == s[s.len() - 1]);
        assert(s.drop_last().push(s.last()) =~= s);
        assert(seq![s.drop_last()].drop_last().push(s.drop_last().push(s.last())) =~= seq![s]);
    }
}

/// Splitting two texts put together with a separator between them gives the
/// segments of the first followed by the segments of the second.
pub proof fn lemma_split_at_separator(a: Seq<char>, b: Seq<char>, sep: char)
    ensures
        split(a.push(sep) + b, sep) == split(a, sep) + split(b, sep),
    decreases b.len(),
{
    let whole = a.push(sep) + b;
    lemma_split_not_empty(a, sep);
    if b.len() == 0 {
        assert(whole =~= a.push(sep));
        assert(whole.drop_last() =~= a);
        assert(split(whole, sep) =~= split(a, sep) + split(b, sep));
    } else {
        lemma_split_at_separator(a, b.drop_last(), sep);
        lemma_split_not_empty(b.drop_last(), sep);
        assert(whole.drop_last() =~= a.push(sep) + b.drop_last());
        assert(whole.last() == b.last());
        assert(split(whole, sep) =~= split(a, sep) + split(b, sep));
    }
}

/// A text that neither begins nor ends with whitespace is left as it is by
/// trimming.
pub proof fn lemma_trim_of_trimmed(s: Seq<char>)
    requires
        s.len() > 0 ==> !is_whitespace(s.first()) && !is_whitespace(s.last()),
    ensures
        trim(s) == s,
{
}

/// The segments joined by `sep`: the separator stands between every two
/// neighbours.
pub open spec fn join(segments: Seq<Seq<char>>, sep: char) -> Seq<char>
    decreases segments.len(),
{
    if segments.len() == 0 {
        Seq::empty()
    } else if segments.len() == 1 {
        segments[0]
    } else {
        join(segments.drop_last(), sep).push(sep) + segments.last()
    }
}

/// No segment of a split text holds the separator.
pub proof fn lemma_split_segments_hold_no_separator(s: Seq<char>, sep: char)
    ensures
        forall|i: int, j: int|
            0 <= i < split(s, sep).len() && 0 <= j < split(s, sep)[i].len() ==> (
            #[trigger] split(s, sep)[i][j]) != sep,
    decreases s.len(),
{
    if s.len() > 0 {
        lemma_split_segments_hold_no_separator(s.drop_last(), sep);
        lemma_split_not_empty(s.drop_last(), sep);
        let before = split(s.drop_last(), sep);
        assert forall|i: int, j: int|
            0 <= i < split(s, sep).len() && 0 <= j < split(s, sep)[i].len() implies (
        #[trigger] split(s, sep)[i][j]) != sep by {
            if i < before.len() - 1 {
                assert(split(s, sep)[i] == before[i]);
                assert(before[i][j] != sep);
            } else if s.last() != sep && j < before.last().len() {
                assert(before[before.len() - 1][j] != sep);
            }
        }
    }
}

/// Joining the segments of a split text by the separator gives the text
/// back.
pub proof fn lemma_split_join(s: Seq<char>, sep: char)
    ensures
        join(split(s, sep), sep) == s,
    decreases s.len(),
{
    if s.len() == 0 {
        assert(join(split(s, sep), sep) =~= s);
    } else {
        lemma_split_join(s.drop_last(), sep);
        lemma_split_not_empty(s.drop_last(), sep);
        let before = split(s.drop_last(), sep);
        let after = split(s, sep);
        if s.last() == sep {
            assert(after.drop_last() =~= before);
            assert(join(after, sep) =~= s.drop_last().push(sep));
        } else if before.len() == 1 {
            assert(after =~= seq![before[0].push(s.last())]);
            assert(join(after, sep) =~= s.drop_last().push(s.last()));
        } else {
            assert(after.drop_last() =~= before.drop_last());
            assert(join(after, sep) =~= (join(before.drop_last(), sep).push(sep)
                + before.last()).push(s.last()));
        }
        assert(s.drop_last().push(s.last()) =~= s);
    }
}

/// A text with `n` separators has `n + 1` segments.
pub proof fn lemma_split_len(s: Seq<char>, sep: char)
    ensures
        split(s, sep).len() == 1 + s.filter(|c: char| c == sep).len(),
    decreases s.len(),
{
    reveal(Seq::filter);
    if s.len() > 0 {
        lemma_split_len(s.drop_last(), sep);
        lemma_split_not_empty(s.drop_last(), sep);
    }
}

/// The number of whitespace characters at the front of `s`.
pub open spec fn leading_whitespace(s: Seq<char>) -> nat
    decreases s.len(),
{
    if s.len() > 0 && is_whitespace(s.first()) {
        1 + leading_whitespace(s.drop_first())
    } else {
        0
    }
}

/// The number of whitespace characters at the end of `s`.
pub open spec fn trailing_whitespace(s: Seq<char>) -> nat
    decreases s.len(),
{
    if s.len() > 0 && is_whitespace(s.last()) {
        1 + trailing_whitespace(s.drop_last())
    } else {
        0
    }
}

/// Trimming the start cuts off exactly the whitespace at the front: what is
/// cut is whitespace, and what follows does not begin with whitespace.
pub proof fn lemma_trim_start(s: Seq<char>)
    ensures
        leading_whitespace(s) <= s.len(),
        trim_start(s) == s.skip(leading_whitespace(s) as int),
        forall|i: int| 0 <= i < leading_whitespace(s) ==> is_whitespace(#[trigger] s[i]),
        leading_whitespace(s) < s.len() ==> !is_whitespace(s[leading_whitespace(s) as int]),
    decreases s.len(),
{
    if s.len() > 0 && is_whitespace(s.first()) {
        let rest = s.drop_first();
        lemma_trim_start(rest);
        assert(rest.skip(leading_whitespace(rest) as int) =~= s.skip(
            leading_whitespace(s) as int,
        ));
        assert forall|i: int| 0 <= i < leading_whitespace(s) implies is_whitespace(
            #[trigger] s[i],
        ) by {
            if i > 0 {
                assert(s[i] == rest[i - 1]);
            }
        }
        if leading_whitespace(s) < s.len() {
            assert(s[leading_whitespace(s) as int] == rest[leading_whitespace(rest) as int]);
        }
    } else {
        assert(s.skip(0) =~= s);
    }
}

/// Trimming the end cuts off exactly the whitespace at the end: what is cut
/// is whitespace, and what stays does not end with whitespace.
pub proof fn lemma_trim_end(s: Seq<char>)
    ensures
        trailing_whitespace(s) <= s.len(),
        trim_end(s) == s.take(s.len() - trailing_whitespace(s)),
        forall|i: int|
            s.len() - trailing_whitespace(s) <= i < s.len() ==> is_whitespace(#[trigger] s[i]),
        trailing_whitespace(s) < s.len() ==> !is_whitespace(
            s[s.len() - trailing_whitespace(s) - 1],
        ),
    decreases s.len(),
{
    if s.len() > 0 && is_whitespace(s.last()) {
        let rest = s.drop_last();
        lemma_trim_end(rest);
        assert(rest.take(rest.len() - trailing_whitespace(rest)) =~= s.take(
            s.len() - trailing_whitespace(s),
        ));
        assert forall|i: int|
            s.len() - trailing_whitespace(s) <= i < s.len() implies is_whitespace(
            #[trigger] s[i],
        ) by {
            if i < s.len() - 1 {
                assert(s[i] == rest[i]);
            }
        }
        if trailing_whitespace(s) < s.len() {
            assert(s[s.len() - trailing_whitespace(s) - 1] == rest[rest.len()
                - trailing_whitespace(rest) - 1]);
        }
    } else {
        assert(s.take(s.len() as int) =~= s);
    }
}

/// A trimmed text is the part of the text between the whitespace at its
/// front and the whitespace at its end, and it neither begins nor ends with
/// whitespace.
pub proof fn lemma_trim(s: Seq<char>)
    ensures
        ({
            let from = leading_whitespace(s) as int;
            let to = s.len() - trailing_whitespace(s.skip(from));
            &&& 0 <= from <= to <= s.len()
            &&& trim(s) == s.subrange(from, to)
            &&& forall|i: int|
                0 <= i < from || to <= i < s.len() ==> is_whitespace(#[trigger] s[i])
        }),
        trim(s).len() > 0 ==> !is_whitespace(trim(s).first()) && !is_whitespace(trim(s).last()),
{
    lemma_trim_start(s);
    let from = leading_whitespace(s) as int;
    let rest = s.skip(from);
    lemma_trim_end(rest);
    let to = s.len() - trailing_whitespace(rest);
    assert(rest.take(rest.len() - trailing_whitespace(rest)) =~= s.subrange(from, to));
    assert forall|i: int| 0 <= i < from || to <= i < s.len() implies is_whitespace(
        #[trigger] s[i],
    ) by {
        if to <= i {
            assert(s[i] == rest[i - from]);
        }
    }
    if trim(s).len() > 0 {
        assert(trim(s).first() == s[from]);
        assert(trim(s).last() == rest[rest.len() - trailing_whitespace(rest) - 1]);
    }
}

/// Leaving out blank segments never adds a segment, no segment that is kept
/// is empty, and where no segment is blank the result is every segment
/// trimmed, in order.
pub proof fn lemma_non_blank(segments: Seq<Seq<char>>)
    ensures
        non_blank(segments).len() <= segments.len(),
        forall|i: int|
            0 <= i < non_blank(segments).len() ==> (#[trigger] non_blank(segments)[i]).len() > 0,
        (forall|i: int| 0 <= i < segments.len() ==> trim(#[trigger] segments[i]).len() > 0)
            ==> non_blank(segments) == segments.map_values(|s: Seq<char>| trim(s)),
    decreases segments.len(),
{
    if segments.len() > 0 {
        let before = segments.drop_last();
        lemma_non_blank(before);
        if forall|i: int| 0 <= i < segments.len() ==> trim(#[trigger] segments[i]).len() > 0 {
            assert forall|i: int| 0 <= i < before.len() implies trim(#[trigger] before[i]).len()
                > 0 by {
                assert(before[i] == segments[i]);
            }
            assert(trim(segments[segments.len() - 1]).len() > 0);
            assert(non_blank(segments) =~= segments.map_values(|s: Seq<char>| trim(s)));
        }
    } else {
        assert(non_blank(segments) =~= segments.map_values(|s: Seq<char>| trim(s)));
    }
}

/// A longer number is not smaller: appending digits to a sequence never
/// lowers the value it writes.
pub proof fn lemma_decimal_value_prefix(digits: Seq<char>, n: int)
    requires
        0 <= n <= digits.len(),
    ensures
        decimal_value(digits.take(n)) <= decimal_value(digits),
    decreases digits.len() - n,
{
    if n == digits.len() {
        assert(digits.take(n) =~= digits);
    } else {
        lemma_decimal_value_prefix(digits, n + 1);
        assert(digits.take(n + 1).drop_last() =~= digits.take(n));
    }
}

/// Returns the characters of `s`.
pub fn chars_of(s: &str) -> (chars: Vec<char>)
    ensures
        chars@ == s@,
{
    let mut chars: Vec<char> = Vec::new();
    for c in it: s.chars()
        invariant
            chars@ == it.seq().take(it.index() as int),
            it.seq() == s@,
    {
        chars.push(c);
    }
    chars
}

/// Splits `chars` at each occurrence of `sep`.
pub fn split_chars(chars: &Vec<char>, sep: char) -> (segments: Vec<Vec<char>>)
    ensures
        texts(segments@) == split(chars@, sep),
{
    let mut done: Vec<Vec<char>> = Vec::new();
    let mut current: Vec<char> = Vec::new();
    let mut i: usize = 0;
    while i < chars.len()
        invariant
            i <= chars.len(),
            split(chars@.take(i as int), sep) == texts(done@).push(current@),
        decreases chars.len() - i,
    {
        let c = chars[i];
        proof {
            assert(chars@.take(i + 1).drop_last() =~= chars@.take(i as int));
            assert(chars@.take(i + 1).last() == c);
        }
        let ghost before = texts(done@).push(current@);
        if c == sep {
            done.push(current);
            current = Vec::new();
            proof {
                assert(texts(done@) =~= before);
            }
        } else {
            current.push(c);
            proof {
                assert(before.drop_last() =~= texts(done@));
            }
        }
        i += 1;
    }
    proof {
        assert(chars@.take(i as int) =~= chars@);
    }
    let ghost before = texts(done@);
    done.push(current);
    proof {
        assert(texts(done@) =~= before.push(current@));
    }
    done
}

/// Removes leading and trailing whitespace.
pub fn trim_chars(chars: &Vec<char>) -> (trimmed: Vec<char>)
    ensures
        trimmed@ == trim(chars@),
{
    let n = chars.len();
    let mut start: usize = 0;
    proof {
        assert(chars@.skip(0) =~= chars@);
    }
    while start < n && char_is_whitespace(chars[start])
        invariant
            n == chars.len(),
            start <= n,
            trim_start(chars@) == trim_start(chars@.skip(start as int)),
        decreases n - start,
    {
        proof {
            assert(chars@.skip(start as int).drop_first() =~= chars@.skip(start + 1));
        }
        start += 1;
    }
    assert(trim_start(chars@) == chars@.skip(start as int));
    let mut end: usize = n;
    while end > start && char_is_whitespace(chars[end - 1])
        invariant
            n == chars.len(),
            start <= end <= n,
            trim(chars@) == trim_end(chars@.subrange(start as int, end as int)),
        decreases end,
    {
        proof {
            assert(chars@.subrange(start as int, end as int).drop_last() =~= chars@.subrange(
                start as int,
                end - 1,
            ));
        }
        end -= 1;
    }
    let mut trimmed: Vec<char> = Vec::new();
    let mut i: usize = start;
    while i < end
        invariant
            start <= i <= end <= chars.len(),
            trimmed@ == chars@.subrange(start as int, i as int),
        decreases end - i,
    {
        trimmed.push(chars[i]);
        proof {
            assert(chars@.subrange(start as int, i + 1) =~= chars@.subrange(
                start as int,
                i as int,
            ).push(chars@[i as int]));
        }
        i += 1;
    }
    trimmed
}

/// Splits `input` at each occurrence of `sep`, trims each segment and
/// returns the segments that are not empty then, in input order.
pub fn trimmed_segments(input: &str, sep: char) -> (segments: Vec<Vec<char>>)
    ensures
        texts(segments@) == non_blank(split(input@, sep)),
{
    let chars = chars_of(input);
    let raw = split_chars(&chars, sep);
    let mut kept: Vec<Vec<char>> = Vec::new();
    let mut i: usize = 0;
    while i < raw.len()
        invariant
            i <= raw.len(),
            texts(kept@) == non_blank(texts(raw@).take(i as int)),
        decreases raw.len() - i,
    {
        let trimmed = trim_chars(&raw[i]);
        proof {
            assert(texts(raw@).take(i + 1).drop_last() =~= texts(raw@).take(i as int));
            assert(texts(raw@).take(i + 1).last() == raw@[i as int]@);
        }
        let ghost before = texts(kept@);
        if trimmed.len() > 0 {
            kept.push(trimmed);
            proof {
                assert(texts(kept@) =~= before.push(trimmed@));
            }
        }
        i += 1;
    }
    proof {
        assert(texts(raw@).take(i as int) =~= texts(raw@));
    }
    kept
}

/// Reads a non-negative decimal number: an optional plus sign, then one or
/// more digits and nothing else. Returns `None` for any other text and for a
/// number that does not fit in `usize`.
pub fn parse_usize_chars(chars: &Vec<char>) -> (value: Option<usize>)
    ensures
        value == parse_usize(chars@),
{
    let n = chars.len();
    let first: usize = if n > 0 && chars[0] == '+' {
        1
    } else {
        0
    };
    let ghost digits = unsigned_digits(chars@);
    proof {
        assert(digits =~= chars@.skip(first as int));
    }
    if first == n {
        return None;
    }
    let mut value: usize = 0;
    let mut i: usize = first;
    while i < n
        invariant
            n == chars.len(),
            first <= i <= n,
            digits == chars@.skip(first as int),
            digits == unsigned_digits(chars@),
            all_digits(digits.take(i - first)),
            value == decimal_value(digits.take(i - first)),
        decreases n - i,
    {
        let c = chars[i];
        proof {
            assert(digits[i - first] == c);
            assert(digits.take(i - first + 1).drop_last() =~= digits.take(i - first));
        }
        if !('0' <= c && c <= '9') {
            proof {
                assert(!is_digit(digits[i - first]));
            }
            return None;
        }
        let d: usize = (c as u32 - '0' as u32) as usize;
        proof {
            assert(d == digit_value(c));
            assert(decimal_value(digits.take(i - first + 1)) == 10 * value + d);
        }
        if value > (usize::MAX - d) / 10 {
            proof {
                assert(10 * value + d > usize::MAX);
                lemma_decimal_value_prefix(digits, i - first + 1);
            }
            return None;
        }
        value = value * 10 + d;
        i += 1;
    }
    proof {
        assert(digits.take(i - first) =~= digits);
    }
    Some(value)
}

/// Splits `text` at each occurrence of `sep`.
pub fn split_str(text: &str, sep: char) -> (segments: Vec<String>)
    ensures
        string_texts(segments@) == split(text@, sep),
{
    let chars = chars_of(text);
    let parts = split_chars(&chars, sep);
    let mut segments: Vec<String> = Vec::new();
    let mut i: usize = 0;
    while i < parts.len()
        invariant
            i <= parts.len(),
            string_texts(segments@) == texts(parts@).take(i as int),
        decreases parts.len() - i,
    {
        let ghost before = string_texts(segments@);
        let segment = string_from_chars(&parts[i]);
        segments.push(segment);
        proof {
            assert(string_texts(segments@) =~= before.push(segment@));
            assert(texts(parts@).take(i + 1) =~= texts(parts@).take(i as int).push(
                parts@[i as int]@,
            ));
        }
        i += 1;
    }
    proof {
        assert(texts(parts@).take(i as int) =~= texts(parts@));
    }
    segments
}

} // verus!
