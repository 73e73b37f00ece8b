//! Text of the `key=value` argument strings that the driver takes.

use vstd::prelude::*;
use vstd::string::StringExecFns;

verus! {

/// The contents of a list of strings, one sequence for each string.
pub open spec fn strings_view(parts: Seq<String>) -> Seq<Seq<char>> {
    Seq::new(parts.len(), |i: int| parts[i]@)
}

/// The parts written one after another, with `sep` between neighbours.
pub open spec fn join(parts: Seq<Seq<char>>, sep: Seq<char>) -> Seq<char>
    decreases parts.len(),
{
    if parts.len() == 0 {
        Seq::empty()
    } else if parts.len() == 1 {
        parts[0]
    } else {
        join(parts.drop_last(), sep) + sep + parts.last()
    }
}

/// The position of the first `x` in `s`, or the length of `s` if `x` does
/// not occur.
pub open spec fn find<T>(s: Seq<T>, x: T) -> int
    decreases s.len(),
{
    if s.len() == 0 || s[0] == x {
        0
    } else {
        1 + find(s.drop_first(), x)
    }
}

/// `text` cut at each `sep`: the parts between the separators, in order.
/// A text without separator is one part, and two separators in a row have
/// an empty part between them.
pub open spec fn split(text: Seq<char>, sep: char) -> Seq<Seq<char>>
    decreases text.len(),
{
    let at = find(text, sep);
    if 0 <= at < text.len() {
        seq![text.take(at)] + split(text.skip(at + 1), sep)
    } else {
        seq![text]
    }
}

/// `find` is the first position that holds `x`.
pub proof fn lemma_find<T>(s: Seq<T>, x: T)
    ensures
        0 <= find(s, x) <= s.len(),
        find(s, x) < s.len() ==> s[find(s, x)] == x,
        forall|i: int| 0 <= i < find(s, x) ==> #[trigger] s[i] != x,
    decreases s.len(),
{
    if s.len() == 0 || s[0] == x {
    } else {
        let rest = s.drop_first();
        lemma_find(rest, x);
        assert forall|i: int| 0 <= i < find(s, x) implies #[trigger] s[i] != x by {
            if i > 0 {
                assert(s[i] == rest[i - 1]);
            }
        }
    }
}

/// A position that holds `x` and has no `x` before it is what `find`
/// gives; so is the length, if `x` does not occur.
pub proof fn lemma_find_is<T>(s: Seq<T>, x: T, at: int)
    requires
        0 <= at <= s.len(),
        at < s.len() ==> s[at] == x,
        forall|i: int| 0 <= i < at ==> #[trigger] s[i] != x,
    ensures
        find(s, x) == at,
{
    lemma_find(s, x);
    let found = find(s, x);
    if found < at {
        assert(s[found] != x);
    }
}

/// The argument `key=value`.
pub open spec fn key_value(key: Seq<char>, value: Seq<char>) -> Seq<char> {
    key + seq!['='] + value
}

/// The character of one decimal digit.
pub open spec fn decimal_digit(d: int) -> char {
    if d == 0 {
        '0'
    } else if d == 1 {
        '1'
    } else if d == 2 {
        '2'
    } else if d == 3 {
        '3'
    } else if d == 4 {
        '4'
    } else if d == 5 {
        '5'
    } else if d == 6 {
        '6'
    } else if d == 7 {
        '7'
    } else if d == 8 {
        '8'
    } else {
        '9'
    }
}

/// The decimal digits of `n`, most significant first, without leading
/// zeros.
pub open spec fn decimal(n: nat) -> Seq<char>
    decreases n,
{
    if n < 10 {
        seq![decimal_digit(n as int)]
    } else {
        decimal(n / 10) + seq![decimal_digit((n % 10) as int)]
    }
}

/// A character that occurs in joined text occurs in one of the parts or in
/// the separator.
pub proof fn lemma_join_chars(parts: Seq<Seq<char>>, sep: Seq<char>, c: char)
    requires
        !sep.contains(c),
        forall|i: int| 0 <= i < parts.len() ==> !(#[trigger] parts[i]).contains(c),
    ensures
        !join(parts, sep).contains(c),
    decreases parts.len(),
{
    if parts.len() == 0 {
    } else if parts.len() == 1 {
    } else {
        let head = parts.drop_last();
        assert forall|i: int| 0 <= i < head.len() implies !(#[trigger] head[i]).contains(c) by {
            assert(head[i] == parts[i]);
        }
        lemma_join_chars(head, sep, c);
        lemma_concat_chars(join(head, sep), sep, c);
        lemma_concat_chars(join(head, sep) + sep, parts.last(), c);
    }
}

/// A character that occurs in neither of two sequences does not occur in
/// the two written one after the other.
pub proof fn lemma_concat_chars(a: Seq<char>, b: Seq<char>, c: char)
    requires
        !a.contains(c),
        !b.contains(c),
    ensures
        !(a + b).contains(c),
{
    if (a + b).contains(c) {
        let i = choose|i: int| 0 <= i < (a + b).len() && (a + b)[i] == c;
        if i < a.len() {
            assert(a[i] == c);
        } else {
            assert(b[i - a.len()] == c);
        }
    }
}

/// The decimal digits of a number hold nothing but digits.
pub proof fn lemma_decimal_chars(n: nat, c: char)
    requires
        c == '=' || c == '\0' || c == ',',
    ensures
        !decimal(n).contains(c),
    decreases n,
{
    if n < 10 {
        assert(decimal(n) =~= seq![decimal_digit(n as int)]);
        if decimal(n).contains(c) {
            let i = choose|i: int| 0 <= i < decimal(n).len() && decimal(n)[i] == c;
            assert(decimal(n)[i] == decimal_digit(n as int));
        }
    } else {
        lemma_decimal_chars(n / 10, c);
        let last = seq![decimal_digit((n % 10) as int)];
        if last.contains(c) {
            let i = choose|i: int| 0 <= i < last.len() && last[i] == c;
            assert(last[i] == decimal_digit((n % 10) as int));
        }
        lemma_concat_chars(decimal(n / 10), last, c);
    }
}

/// Joins `parts` with `sep` between neighbours.
pub fn join_strings(parts: &Vec<String>, sep: &str) -> (out: String)
    ensures
        out@ == join(strings_view(parts@), sep@),
{
    let mut out = String::new();
    let ghost all = strings_view(parts@);
    let mut i: usize = 0;
    while i < parts.len()
        invariant
            i <= parts.len(),
            all == strings_view(parts@),
            out@ == join(all.take(i as int), sep@),
        decreases parts.len() - i,
    {
        proof {
            assert(all.take(i as int + 1).drop_last() =~= all.take(i as int));
            assert(all.take(i as int + 1).last() == parts[i as int]@);
        }
        if i > 0 {
            out.append(sep);
        }
        out.append(parts[i].as_str());
        proof {
            if i == 0 {
                assert(out@ =~= parts[0]@);
            }
        }
        i += 1;
    }
    assert(all.take(parts.len() as int) =~= all);
    out
}

/// Writes the argument `key=value`.
pub fn format_key_value(key: &str, value: &str) -> (out: String)
    ensures
        out@ == key_value(key@, value@),
{
    let mut out = String::from_str(key);
    proof {
        reveal_strlit("=");
        assert("="@ =~= seq!['=']);
    }
    out.append("=");
    out.append(value);
    out
}

fn digit_str(d: usize) -> (text: &'static str)
    requires
        d < 10,
    ensures
        text@ == seq![decimal_digit(d as int)],
{
    proof {
        reveal_strlit("0");
        reveal_strlit("1");
        reveal_strlit("2");
        reveal_strlit("3");
        reveal_strlit("4");
        reveal_strlit("5");
        reveal_strlit("6");
        reveal_strlit("7");
        reveal_strlit("8");
        reveal_strlit("9");
    }
    let text = if d == 0 {
        "0"
    } else if d == 1 {
        "1"
    } else if d == 2 {
        "2"
    } else if d == 3 {
        "3"
    } else if d == 4 {
        "4"
    } else if d == 5 {
        "5"
    } else if d == 6 {
        "6"
    } else if d == 7 {
        "7"
    } else if d == 8 {
        "8"
    } else {
        "9"
    };
    assert(text@ =~= seq![decimal_digit(d as int)]);
    text
}

/// Writes `n` in decimal.
pub fn format_decimal(n: usize) -> (out: String)
    ensures
        out@ == decimal(n as nat),
    decreases n,
{
    if n < 10 {
        String::from_str(digit_str(n))
    } else {
        let mut out = format_decimal(n / 10);
        out.append(digit_str(n % 10));
        out
    }
}

/// The parts of `chars` that `ranges` names, each range from its first
/// position up to, not including, its second.
pub open spec fn ranges_view(chars: Seq<char>, ranges: Seq<(usize, usize)>) -> Seq<Seq<char>> {
    Seq::new(ranges.len(), |k: int| chars.subrange(ranges[k].0 as int, ranges[k].1 as int))
}

/// The characters of `text`.
pub fn chars_of(text: &str) -> (chars: Vec<char>)
    ensures
        chars@ == text@,
{
    let mut chars: Vec<char> = Vec::new();
    for c in it: text.chars()
        invariant
            it.seq() == text@,
            chars@ == text@.take(it.index()),
    {
        chars.push(c);
        assert(chars@ =~= text@.take(it.index() + 1));
    }
    assert(text@.take(text@.len() as int) =~= text@);
    chars
}

/// Cuts the characters from `from` up to `to` at each `sep`, and returns
/// where each part starts and ends.
pub fn split_ranges(chars: &Vec<char>, from: usize, to: usize, sep: char) -> (ranges: Vec<
    (usize, usize),
>)
    requires
        from <= to <= chars.len(),
    ensures
        ranges.len() > 0,
        forall|k: int|
            0 <= k < ranges.len() ==> from <= (#[trigger] ranges[k]).0 <= ranges[k].1 <= to,
        ranges_view(chars@, ranges@) == split(chars@.subrange(from as int, to as int), sep),
{
    let ghost whole = chars@.subrange(from as int, to as int);
    let mut ranges: Vec<(usize, usize)> = Vec::new();
    let mut start: usize = from;
    let mut i: usize = from;
    assert(ranges_view(chars@, ranges@) + split(whole, sep) =~= split(whole, sep));
    while i < to
        invariant
            from <= start <= i <= to <= chars.len(),
            whole == chars@.subrange(from as int, to as int),
            forall|j: int| start <= j < i ==> #[trigger] chars@[j] != sep,
            forall|k: int|
                0 <= k < ranges.len() ==> from <= (#[trigger] ranges[k]).0 <= ranges[k].1 <= to,
            split(whole, sep) == ranges_view(chars@, ranges@) + split(
                chars@.subrange(start as int, to as int),
                sep,
            ),
        decreases to - i,
    {
        if chars[i] == sep {
            proof {
                let tail = chars@.subrange(start as int, to as int);
                lemma_find_is(tail, sep, i - start);
                assert(tail.take(i - start) =~= chars@.subrange(start as int, i as int));
                assert(tail.skip(i - start + 1) =~= chars@.subrange(i + 1, to as int));
                assert(ranges_view(chars@, ranges@.push((start, i))) =~= ranges_view(
                    chars@,
                    ranges@,
                ) + seq![chars@.subrange(start as int, i as int)]);
            }
            ranges.push((start, i));
            start = i + 1;
        }
        i += 1;
    }
    proof {
        let tail = chars@.subrange(start as int, to as int);
        lemma_find_is(tail, sep, tail.len() as int);
        assert(split(tail, sep) =~= seq![tail]);
        assert(ranges_view(chars@, ranges@.push((start, to))) =~= ranges_view(chars@, ranges@)
            + seq![tail]);
    }
    ranges.push((start, to));
    ranges
}

/// Whether `c` occurs in `text`.
pub fn contains_char(text: &str, c: char) -> (found: bool)
    ensures
        found == text@.contains(c),
{
    let mut found = false;
    for x in it: text.chars()
        invariant
            found == (exists|j: int| 0 <= j < it.index() && #[trigger] text@[j] == c),
            it.seq() == text@,
    {
        if x == c {
            found = true;
            assert(text@[it.index()] == c);
        }
    }
    found
}

} // verus!
