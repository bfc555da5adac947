//! Text handling on characters: white space and trimming, comparison,
//! lines, joining, and numbers in decimal.
use vstd::prelude::*;
use vstd::std_specs::iter::IteratorSpec;

verus! {

/// Whether `c` is white space: the characters that carry Unicode's
/// `White_Space` property.
pub open spec fn is_whitespace(c: char) -> bool {
    ||| c == ' '
    ||| '\u{9}' <= c <= '\u{d}'
    ||| c == '\u{85}'
    ||| c == '\u{a0}'
    ||| c == '\u{1680}'
    ||| '\u{2000}' <= c <= '\u{200a}'
    ||| c == '\u{2028}'
    ||| c == '\u{2029}'
    ||| c == '\u{202f}'
    ||| c == '\u{205f}'
    ||| c == '\u{3000}'
}

/// Whether `c` is white space.
pub fn is_whitespace_char(c: char) -> (b: bool)
    ensures
        b == is_whitespace(c),
{
    c == ' ' || ('\u{9}' <= c && c <= '\u{d}') || c == '\u{85}' || c == '\u{a0}' || c
        == '\u{1680}' || ('\u{2000}' <= c && c <= '\u{200a}') || c == '\u{2028}' || c
        == '\u{2029}' || c == '\u{202f}' || c == '\u{205f}' || c == '\u{3000}'
}

/// Whether `s` is empty or holds white space only.
pub open spec fn is_blank(s: Seq<char>) -> bool {
    forall|i: int| 0 <= i < s.len() ==> is_whitespace(#[trigger] s[i])
}

/// Whether `s` is empty or holds white space only.
pub fn blank(s: &str) -> (b: bool)
    ensures
        b == is_blank(s@),
{
    broadcast use vstd::string::group_string_axioms;

    let mut it = s.chars();
    let ghost mut seen: int = 0;
    loop
        invariant
            it.obeys_prophetic_iter_laws(),
            0 <= seen <= s@.len(),
            it.remaining() == s@.skip(seen),
            forall|i: int| 0 <= i < seen ==> is_whitespace(#[trigger] s@[i]),
        decreases s@.len() - seen,
    {
        match it.next() {
            None => {
                return true;
            },
            Some(c) => {
                assert(c == s@[seen]);
                if !is_whitespace_char(c) {
                    return false;
                }
                proof {
                    assert(s@.skip(seen).drop_first() == s@.skip(seen + 1));
                    seen = seen + 1;
                }
            },
        }
    }
}

/// Whether `a` and `b` hold the same characters.
pub fn same(a: &str, b: &str) -> (equal: bool)
    ensures
        equal == (a@ == b@),
{
    broadcast use vstd::string::group_string_axioms;

    let mut left = a.chars();
    let mut right = b.chars();
    let ghost mut seen: int = 0;
    loop
        invariant
            left.obeys_prophetic_iter_laws(),
            right.obeys_prophetic_iter_laws(),
            0 <= seen <= a@.len(),
            seen <= b@.len(),
            left.remaining() == a@.skip(seen),
            right.remaining() == b@.skip(seen),
            a@.take(seen) == b@.take(seen),
        decreases a@.len() - seen,
    {
        match (left.next(), right.next()) {
            (None, None) => {
                assert(a@ =~= a@.take(seen));
                assert(b@ =~= b@.take(seen));
                return true;
            },
            (Some(x), Some(y)) => {
                assert(x == a@[seen]);
                assert(y == b@[seen]);
                if x != y {
                    return false;
                }
                proof {
                    assert(a@.skip(seen).drop_first() == a@.skip(seen + 1));
                    assert(b@.skip(seen).drop_first() == b@.skip(seen + 1));
                    assert(a@.take(seen + 1) =~= a@.take(seen).push(x));
                    assert(b@.take(seen + 1) =~= b@.take(seen).push(y));
                    seen = seen + 1;
                }
            },
            _ => {
                return false;
            },
        }
    }
}

/// The ten decimal digits, by value.
pub open spec fn digits() -> Seq<char> {
    seq!['0', '1', '2', '3', '4', '5', '6', '7', '8', '9']
}

/// A natural number in decimal, without leading zeros.
pub open spec fn decimal_nat(n: nat) -> Seq<char>
    decreases n,
{
    if n < 10 {
        seq![digits()[n as int]]
    } else {
        decimal_nat(n / 10).push(digits()[(n % 10) as int])
    }
}

/// An integer in decimal, with a minus sign where it is negative.
pub open spec fn decimal(n: int) -> Seq<char> {
    if n < 0 {
        seq!['-'] + decimal_nat((-n) as nat)
    } else {
        decimal_nat(n as nat)
    }
}

fn digit_text(d: u8) -> (text: &'static str)
    requires
        d < 10,
    ensures
        text@ == seq![digits()[d as int]],
{
    proof {
        reveal_strlit("0");
        reveal_strlit("1");
        reveal_strlit("2");
        reveal_strlit("3");
        reveal_strlit("4");
        reveal_strlit("5");
        reveal_strlit("6");
        reveal_strlit("7");
        reveal_strlit("8");
        reveal_strlit("9");
    }
    let text = match d {
        0 => "0",
        1 => "1",
        2 => "2",
        3 => "3",
        4 => "4",
        5 => "5",
        6 => "6",
        7 => "7",
        8 => "8",
        _ => "9",
    };
    assert(text@ =~= seq![digits()[d as int]]);
    text
}

/// Renders `n` in decimal.
pub fn decimal_u128(n: u128) -> (text: String)
    ensures
        text@ == decimal_nat(n as nat),
{
    let mut rest: u128 = n / 10;
    let mut text = String::from_str(digit_text((n % 10) as u8));
    while rest > 0
        invariant
            decimal_nat(n as nat) == if rest == 0 {
                text@
            } else {
                decimal_nat(rest as nat) + text@
            },
        decreases rest,
    {
        let digit = digit_text((rest % 10) as u8);
        proof {
            if rest >= 10 {
                assert(decimal_nat(rest as nat) + text@ =~= decimal_nat((rest / 10) as nat) + (
                digit@ + text@));
            } else {
                assert(decimal_nat(rest as nat) + text@ =~= digit@ + text@);
            }
        }
        text = String::from_str(digit).concat(text.as_str());
        rest = rest / 10;
    }
    text
}

/// Renders `n` in decimal, with a minus sign where it is negative.
pub fn decimal_i32(n: i32) -> (text: String)
    ensures
        text@ == decimal(n as int),
{
    if n < 0 {
        let magnitude: u128 = (-(n as i64)) as u128;
        proof {
            reveal_strlit("-");
            assert("-"@ =~= seq!['-']);
        }
        String::from_str("-").concat(decimal_u128(magnitude).as_str())
    } else {
        decimal_u128(n as u128)
    }
}

/// `text` without its leading white space.
pub open spec fn trim_start(text: Seq<char>) -> Seq<char>
    decreases text.len(),
{
    if text.len() > 0 && is_whitespace(text[0]) {
        trim_start(text.drop_first())
    } else {
        text
    }
}

/// `text` without its trailing white space.
pub open spec fn trim_end(text: Seq<char>) -> Seq<char>
    decreases text.len(),
{
    if text.len() > 0 && is_whitespace(text.last()) {
        trim_end(text.drop_last())
    } else {
        text
    }
}

/// `text` without its leading and trailing white space.
pub open spec fn trimmed(text: Seq<char>) -> Seq<char> {
    trim_end(trim_start(text))
}

/// Leading white space of length `n` is what `trim_start` removes.
pub proof fn lemma_trim_start(text: Seq<char>, n: int)
    requires
        0 <= n <= text.len(),
        forall|i: int| 0 <= i < n ==> is_whitespace(#[trigger] text[i]),
        n < text.len() ==> !is_whitespace(text[n]),
    ensures
        trim_start(text) == text.skip(n),
    decreases n,
{
    if n == 0 {
        assert(text.skip(0) =~= text);
    } else {
        let rest = text.drop_first();
        assert forall|i: int| 0 <= i < n - 1 implies is_whitespace(#[trigger] rest[i]) by {
            assert(rest[i] == text[i + 1]);
        }
        lemma_trim_start(rest, n - 1);
        assert(rest.skip(n - 1) =~= text.skip(n));
    }
}

/// Trailing white space after position `n` is what `trim_end` removes.
pub proof fn lemma_trim_end(text: Seq<char>, n: int)
    requires
        0 <= n <= text.len(),
        forall|i: int| n <= i < text.len() ==> is_whitespace(#[trigger] text[i]),
        n > 0 ==> !is_whitespace(text[n - 1]),
    ensures
        trim_end(text) == text.take(n),
    decreases text.len() - n,
{
    if n == text.len() {
        assert(text.take(n) =~= text);
    } else {
        let rest = text.drop_last();
        lemma_trim_end(rest, n);
        assert(rest.take(n) =~= text.take(n));
    }
}

/// A text is blank exactly when trimming leaves nothing of it.
pub proof fn blank_iff_trimmed_empty(text: Seq<char>)
    ensures
        is_blank(text) <==> trimmed(text).len() == 0,
    decreases text.len(),
{
    if text.len() > 0 && is_whitespace(text[0]) {
        let rest = text.drop_first();
        blank_iff_trimmed_empty(rest);
        if is_blank(rest) {
            assert forall|i: int| 0 <= i < text.len() implies is_whitespace(#[trigger] text[i]) by {
                if i > 0 {
                    assert(text[i] == rest[i - 1]);
                }
            }
        } else {
            let i = choose|i: int| 0 <= i < rest.len() && !is_whitespace(#[trigger] rest[i]);
            assert(text[i + 1] == rest[i]);
        }
    } else if text.len() > 0 {
        assert(trim_start(text) == text);
        lemma_trim_end_keeps_head(text);
    }
}

/// Trimming the end of a text that starts with a visible character leaves
/// that character in place.
pub proof fn lemma_trim_end_keeps_head(text: Seq<char>)
    requires
        text.len() > 0,
        !is_whitespace(text[0]),
    ensures
        trim_end(text).len() > 0,
    decreases text.len(),
{
    if is_whitespace(text.last()) {
        assert(text.len() > 1);
        lemma_trim_end_keeps_head(text.drop_last());
    }
}

/// `text` without its leading and trailing white space.
pub fn trim(text: &str) -> (slice: &str)
    ensures
        slice@ == trimmed(text@),
{
    broadcast use vstd::string::group_string_axioms;

    let total = text.unicode_len();
    let mut chars = text.chars();
    let mut index: usize = 0;
    let mut start: usize = total;
    let mut end: usize = 0;
    while index < total
        invariant
            chars.obeys_prophetic_iter_laws(),
            total == text@.len(),
            index <= total,
            chars.remaining() == text@.skip(index as int),
            forall|i: int| 0 <= i < index && i < start ==> is_whitespace(#[trigger] text@[i]),
            start < index ==> !is_whitespace(text@[start as int]),
            start >= index ==> start == total && end == 0,
            start < index ==> start < end <= index,
            forall|i: int| end <= i < index ==> is_whitespace(#[trigger] text@[i]),
            end > 0 ==> !is_whitespace(text@[end - 1]),
        decreases total - index,
    {
        match chars.next() {
            None => {
                assert(false);
            },
            Some(c) => {
                assert(c == text@[index as int]);
                proof {
                    assert(text@.skip(index as int).drop_first() == text@.skip(index + 1));
                }
                if !is_whitespace_char(c) {
                    if start == total {
                        start = index;
                    }
                    end = index + 1;
                }
            },
        }
        index = index + 1;
    }
    if start == total {
        proof {
            lemma_trim_start(text@, total as int);
            assert(trim_end(text@.skip(total as int)) =~= Seq::<char>::empty());
            assert(text@.subrange(0, 0) =~= Seq::<char>::empty());
        }
        text.substring_char(0, 0)
    } else {
        proof {
            lemma_trim_start(text@, start as int);
            let tail = text@.skip(start as int);
            assert forall|i: int| end - start <= i < tail.len() implies is_whitespace(
                #[trigger] tail[i],
            ) by {
                assert(tail[i] == text@[i + start]);
            }
            assert(tail[end - start - 1] == text@[end - 1]);
            lemma_trim_end(tail, end - start);
            assert(tail.take(end - start) =~= text@.subrange(start as int, end as int));
        }
        text.substring_char(start, end)
    }
}

/// The part of `text` before the first `stop`; all of it where there is
/// none.
pub open spec fn before_first(text: Seq<char>, stop: char) -> Seq<char>
    decreases text.len(),
{
    if text.len() == 0 || text[0] == stop {
        Seq::empty()
    } else {
        seq![text[0]] + before_first(text.drop_first(), stop)
    }
}

/// A prefix free of `stop` that ends the text or is followed by `stop` is
/// what `before_first` yields.
pub proof fn lemma_before_first(text: Seq<char>, stop: char, n: int)
    requires
        0 <= n <= text.len(),
        forall|i: int| 0 <= i < n ==> #[trigger] text[i] != stop,
        n < text.len() ==> text[n] == stop,
    ensures
        before_first(text, stop) == text.take(n),
    decreases n,
{
    if n == 0 {
        assert(text.take(0) =~= Seq::<char>::empty());
    } else {
        let rest = text.drop_first();
        assert forall|i: int| 0 <= i < n - 1 implies #[trigger] rest[i] != stop by {
            assert(rest[i] == text[i + 1]);
        }
        lemma_before_first(rest, stop, n - 1);
        assert(seq![text[0]] + rest.take(n - 1) =~= text.take(n));
    }
}

/// The first line of `text`: what stands before its first line feed.
pub fn first_line(text: &str) -> (line: &str)
    ensures
        line@ == before_first(text@, '\n'),
{
    broadcast use vstd::string::group_string_axioms;

    let total = text.unicode_len();
    let mut chars = text.chars();
    let mut index: usize = 0;
    while index < total
        invariant
            chars.obeys_prophetic_iter_laws(),
            total == text@.len(),
            index <= total,
            chars.remaining() == text@.skip(index as int),
            forall|i: int| 0 <= i < index ==> #[trigger] text@[i] != '\n',
        decreases total - index,
    {
        match chars.next() {
            None => {
                assert(false);
            },
            Some(c) => {
                assert(c == text@[index as int]);
                proof {
                    assert(text@.skip(index as int).drop_first() == text@.skip(index + 1));
                }
                if c == '\n' {
                    proof {
                        lemma_before_first(text@, '\n', index as int);
                    }
                    return text.substring_char(0, index);
                }
            },
        }
        index = index + 1;
    }
    proof {
        lemma_before_first(text@, '\n', total as int);
    }
    text.substring_char(0, total)
}

/// `text` without the run of `tail` characters at its end.
pub open spec fn without_trailing(text: Seq<char>, tail: char) -> Seq<char>
    decreases text.len(),
{
    if text.len() > 0 && text.last() == tail {
        without_trailing(text.drop_last(), tail)
    } else {
        text
    }
}

/// A suffix made of `tail` alone, after a character that is not `tail`, is
/// what `without_trailing` removes.
pub proof fn lemma_without_trailing(text: Seq<char>, tail: char, n: int)
    requires
        0 <= n <= text.len(),
        forall|i: int| n <= i < text.len() ==> #[trigger] text[i] == tail,
        n > 0 ==> text[n - 1] != tail,
    ensures
        without_trailing(text, tail) == text.take(n),
    decreases text.len() - n,
{
    if n == text.len() {
        assert(text.take(n) =~= text);
    } else {
        let rest = text.drop_last();
        lemma_without_trailing(rest, tail, n);
        assert(rest.take(n) =~= text.take(n));
    }
}

/// `text` without the run of `tail` characters at its end.
pub fn trim_end_matches(text: &str, tail: char) -> (slice: &str)
    ensures
        slice@ == without_trailing(text@, tail),
{
    broadcast use vstd::string::group_string_axioms;

    let total = text.unicode_len();
    let mut chars = text.chars();
    let mut index: usize = 0;
    let mut end: usize = 0;
    while index < total
        invariant
            chars.obeys_prophetic_iter_laws(),
            total == text@.len(),
            index <= total,
            end <= index,
            chars.remaining() == text@.skip(index as int),
            forall|i: int| end <= i < index ==> #[trigger] text@[i] == tail,
            end > 0 ==> text@[end - 1] != tail,
        decreases total - index,
    {
        match chars.next() {
            None => {
                assert(false);
            },
            Some(c) => {
                assert(c == text@[index as int]);
                proof {
                    assert(text@.skip(index as int).drop_first() == text@.skip(index + 1));
                }
                if c != tail {
                    end = index + 1;
                }
            },
        }
        index = index + 1;
    }
    proof {
        lemma_without_trailing(text@, tail, end as int);
    }
    text.substring_char(0, end)
}

/// The `parts` in order, with `separator` between neighbours.
pub open spec fn joined(parts: Seq<Seq<char>>, separator: Seq<char>) -> Seq<char>
    decreases parts.len(),
{
    if parts.len() == 0 {
        Seq::empty()
    } else if parts.len() == 1 {
        parts[0]
    } else {
        joined(parts.drop_last(), separator) + separator + parts.last()
    }
}

/// The `parts` in order, with `separator` between neighbours.
pub fn join(parts: &Vec<String>, separator: &str) -> (text: String)
    ensures
        text@ == joined(parts@.map_values(|part: String| part@), separator@),
{
    let ghost views = parts@.map_values(|part: String| part@);
    let mut text = String::new();
    let mut i: usize = 0;
    while i < parts.len()
        invariant
            i <= parts@.len(),
            views == parts@.map_values(|part: String| part@),
            text@ == joined(views.take(i as int), separator@),
        decreases parts@.len() - i,
    {
        proof {
            assert(views.take(i + 1).drop_last() =~= views.take(i as int));
            assert(views.take(i + 1).last() == parts@[i as int]@);
        }
        if i > 0 {
            text.append(separator);
        } else {
            assert(text@ + parts@[0]@ =~= parts@[0]@);
        }
        text.append(parts[i].as_str());
        i += 1;
    }
    assert(views.take(i as int) =~= views);
    text
}

} // verus!
