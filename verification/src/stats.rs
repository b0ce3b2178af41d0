//! Reading a counter from what the engine's statistics command prints.
//!
//! The command prints lines such as
//! `stat: <name: "inbound>>>x>>>traffic>>>uplink" value: 12345>`.
//! The reading is the number after the first `value:` of the first line that
//! has one that can be read; an output without such a line reads as `0`.

use crate::text::chars_of;
use vstd::prelude::*;
use vstd::slice::slice_subrange;

verus! {

/// The characters `value:` that announce a reading.
pub open spec fn marker() -> Seq<char> {
    seq!['v', 'a', 'l', 'u', 'e', ':']
}

/// Whether the marker stands in `s` at `i`.
pub open spec fn marker_at(s: Seq<char>, i: int) -> bool {
    0 <= i && i + 6 <= s.len() && s.subrange(i, i + 6) == marker()
}

/// The first place at or after `from` where the marker stands in `s`.
pub open spec fn first_marker(s: Seq<char>, from: int) -> Option<int>
    decreases s.len() - from,
{
    if from < 0 || from + 6 > s.len() {
        None
    } else if marker_at(s, from) {
        Some(from)
    } else {
        first_marker(s, from + 1)
    }
}

/// Whether `c` is white space, as Unicode has it.
pub open spec fn is_space(c: char) -> bool {
    let n = c as u32;
    ||| 0x09 <= n <= 0x0d
    ||| n == 0x20
    ||| n == 0x85
    ||| n == 0xa0
    ||| n == 0x1680
    ||| 0x2000 <= n <= 0x200a
    ||| n == 0x2028
    ||| n == 0x2029
    ||| n == 0x202f
    ||| n == 0x205f
    ||| n == 0x3000
}

/// `s` without the white space at its start.
pub open spec fn trim_start(s: Seq<char>) -> Seq<char>
    decreases s.len(),
{
    if s.len() > 0 && is_space(s[0]) {
        trim_start(s.drop_first())
    } else {
        s
    }
}

/// `s` without the white space at its end.
pub open spec fn trim_end(s: Seq<char>) -> Seq<char>
    decreases s.len(),
{
    if s.len() > 0 && is_space(s.last()) {
        trim_end(s.drop_last())
    } else {
        s
    }
}

/// `s` without the white space at either end.
pub open spec fn trim(s: Seq<char>) -> Seq<char> {
    trim_end(trim_start(s))
}

/// `s` without the `>` characters at its end.
pub open spec fn strip_closers(s: Seq<char>) -> Seq<char>
    decreases s.len(),
{
    if s.len() > 0 && s.last() == '>' {
        strip_closers(s.drop_last())
    } else {
        s
    }
}

/// Whether `c` is one of `0` to `9`.
pub open spec fn is_digit(c: char) -> bool {
    0x30 <= c as u32 <= 0x39
}

/// Whether `s` holds digits only.
pub open spec fn all_digits(s: Seq<char>) -> bool {
    forall|i: int| 0 <= i < s.len() ==> is_digit(#[trigger] s[i])
}

/// The number that the digits of `s` write in base ten.
pub open spec fn digits_value(s: Seq<char>) -> int
    decreases s.len(),
{
    if s.len() == 0 {
        0
    } else {
        10 * digits_value(s.drop_last()) + (s.last() as u32 - 0x30)
    }
}

/// The 64-bit signed integer that `s` writes: digits, with one `+` or `-`
/// before them at most. `None` where `s` is not of that form or the number
/// does not fit.
pub open spec fn parse_integer(s: Seq<char>) -> Option<int> {
    if s.len() == 0 {
        None
    } else {
        let negative = s[0] == '-';
        let digits = if s[0] == '-' || s[0] == '+' {
            s.drop_first()
        } else {
            s
        };
        let value = if negative {
            -digits_value(digits)
        } else {
            digits_value(digits)
        };
        if digits.len() > 0 && all_digits(digits) && i64::MIN <= value <= i64::MAX {
            Some(value)
        } else {
            None
        }
    }
}

/// What stands between the first marker of a line and the next one, or the
/// end of the line where there is no other.
pub open spec fn reading_text(line: Seq<char>, at: int) -> Seq<char> {
    let start = at + 6;
    let stop = match first_marker(line, start) {
        Some(next) => next,
        None => line.len() as int,
    };
    line.subrange(start, stop)
}

/// The reading on one line, if it has one: what follows the first marker,
/// without white space around it and without the closing `>`, read as an
/// integer.
pub open spec fn line_reading(line: Seq<char>) -> Option<int> {
    match first_marker(line, 0) {
        Some(at) => parse_integer(trim(strip_closers(trim(reading_text(line, at))))),
        None => None,
    }
}

/// Where the line that starts at `from` ends: at the next line feed, or at
/// the end of `s`.
pub open spec fn line_end(s: Seq<char>, from: int) -> int
    decreases s.len() - from,
{
    if from < 0 || from >= s.len() {
        s.len() as int
    } else if s[from] == '\n' {
        from
    } else {
        line_end(s, from + 1)
    }
}

/// The reading of the lines of `s` from `from` on: that of the first line
/// that has one, or `0`.
pub open spec fn reading_from(s: Seq<char>, from: int) -> int
    decreases s.len() - from,
{
    if from < 0 || from > s.len() {
        0
    } else {
        let end = line_end(s, from);
        match line_reading(s.subrange(from, end)) {
            Some(v) => v,
            None => if from <= end < s.len() {
                reading_from(s, end + 1)
            } else {
                0
            },
        }
    }
}

/// The reading that an output of the statistics command holds.
pub open spec fn stat_value(output: Seq<char>) -> int {
    reading_from(output, 0)
}

/// The end of a line lies between its start and the end of the text, the
/// line holds no line feed, and a line feed stands at its end unless the
/// text ends there.
pub proof fn lemma_line_end(s: Seq<char>, from: int)
    requires
        0 <= from <= s.len(),
    ensures
        from <= line_end(s, from) <= s.len(),
        line_end(s, from) < s.len() ==> s[line_end(s, from)] == '\n',
        forall|k: int| from <= k < line_end(s, from) ==> s[k] != '\n',
    decreases s.len() - from,
{
    if from < s.len() && s[from] != '\n' {
        lemma_line_end(s, from + 1);
    }
}

/// Where the first marker is found, the marker stands, and it stands
/// nowhere between the start of the search and there.
pub proof fn lemma_first_marker(s: Seq<char>, from: int)
    requires
        0 <= from,
    ensures
        first_marker(s, from) matches Some(at) ==> from <= at && marker_at(s, at),
        forall|k: int|
            from <= k && (first_marker(s, from) matches Some(at) ==> k < at) ==> !marker_at(s, k),
    decreases s.len() - from,
{
    if from + 6 <= s.len() && !marker_at(s, from) {
        lemma_first_marker(s, from + 1);
    }
}

fn is_space_char(c: char) -> (r: bool)
    ensures
        r == is_space(c),
{
    let n = c as u32;
    (0x09 <= n && n <= 0x0d) || n == 0x20 || n == 0x85 || n == 0xa0 || n == 0x1680 || (0x2000 <= n
        && n <= 0x200a) || n == 0x2028 || n == 0x2029 || n == 0x202f || n == 0x205f || n == 0x3000
}

fn marker_here(s: &[char], i: usize) -> (r: bool)
    requires
        i + 6 <= s@.len(),
    ensures
        r == marker_at(s@, i as int),
{
    let r = s[i] == 'v' && s[i + 1] == 'a' && s[i + 2] == 'l' && s[i + 3] == 'u' && s[i + 4] == 'e'
        && s[i + 5] == ':';
    proof {
        let part = s@.subrange(i as int, i + 6);
        if r {
            assert(part =~= marker());
        } else {
            assert(part[0] == s@[i as int]);
            assert(part[1] == s@[i + 1]);
            assert(part[2] == s@[i + 2]);
            assert(part[3] == s@[i + 3]);
            assert(part[4] == s@[i + 4]);
            assert(part[5] == s@[i + 5]);
        }
    }
    r
}

fn find_marker(s: &[char], from: usize) -> (r: Option<usize>)
    ensures
        match r {
            Some(at) => first_marker(s@, from as int) == Some(at as int),
            None => first_marker(s@, from as int) is None,
        },
{
    let n = s.len();
    let mut i: usize = from;
    while i < n && n - i >= 6
        invariant
            from <= i,
            n == s@.len(),
            first_marker(s@, from as int) == first_marker(s@, i as int),
        decreases n - i,
    {
        if marker_here(s, i) {
            return Some(i);
        }
        i += 1;
    }
    None
}

fn trimmed_start(s: &[char]) -> (r: &[char])
    ensures
        r@ == trim_start(s@),
{
    let n = s.len();
    let mut i: usize = 0;
    assert(s@.subrange(0, n as int) =~= s@);
    while i < n && is_space_char(s[i])
        invariant
            i <= n,
            n == s@.len(),
            trim_start(s@) == trim_start(s@.subrange(i as int, n as int)),
        decreases n - i,
    {
        assert(s@.subrange(i as int, n as int).drop_first() =~= s@.subrange(i + 1, n as int));
        i += 1;
    }
    slice_subrange(s, i, n)
}

fn trimmed_end(s: &[char]) -> (r: &[char])
    ensures
        r@ == trim_end(s@),
{
    let mut n = s.len();
    assert(s@.subrange(0, n as int) =~= s@);
    while n > 0 && is_space_char(s[n - 1])
        invariant
            n <= s@.len(),
            trim_end(s@) == trim_end(s@.subrange(0, n as int)),
        decreases n,
    {
        assert(s@.subrange(0, n as int).drop_last() =~= s@.subrange(0, n - 1));
        n -= 1;
    }
    slice_subrange(s, 0, n)
}

fn without_closers(s: &[char]) -> (r: &[char])
    ensures
        r@ == strip_closers(s@),
{
    let mut n = s.len();
    assert(s@.subrange(0, n as int) =~= s@);
    while n > 0 && s[n - 1] == '>'
        invariant
            n <= s@.len(),
            strip_closers(s@) == strip_closers(s@.subrange(0, n as int)),
        decreases n,
    {
        assert(s@.subrange(0, n as int).drop_last() =~= s@.subrange(0, n - 1));
        n -= 1;
    }
    slice_subrange(s, 0, n)
}

/// The digits of a longer text write a number at least as large.
proof fn lemma_digits_grow(s: Seq<char>, k: int)
    requires
        0 <= k <= s.len(),
        all_digits(s),
    ensures
        0 <= digits_value(s.subrange(0, k)) <= digits_value(s),
    decreases s.len() - k,
{
    if k == s.len() {
        assert(s.subrange(0, k) =~= s);
        lemma_digits_nonnegative(s);
    } else {
        lemma_digits_grow(s, k + 1);
        let longer = s.subrange(0, k + 1);
        assert(longer.drop_last() =~= s.subrange(0, k));
        assert(is_digit(s[k]));
        assert(longer.last() == s[k]);
        lemma_digits_nonnegative(s.subrange(0, k));
    }
}

proof fn lemma_digits_nonnegative(s: Seq<char>)
    requires
        all_digits(s),
    ensures
        0 <= digits_value(s),
    decreases s.len(),
{
    if s.len() > 0 {
        assert(is_digit(s.last()));
        lemma_digits_nonnegative(s.drop_last());
    }
}

fn parse_digits(s: &[char]) -> (r: Option<u64>)
    ensures
        match r {
            Some(v) => s@.len() > 0 && all_digits(s@) && digits_value(s@) == v && v <= 0x8000_0000_0000_0000,
            None => s@.len() == 0 || !all_digits(s@) || digits_value(s@) > 0x8000_0000_0000_0000,
        },
{
    let n = s.len();
    if n == 0 {
        return None;
    }
    let mut acc: u128 = 0;
    let mut i: usize = 0;
    while i < n
        invariant
            i <= n,
            n == s@.len(),
            all_digits(s@.subrange(0, i as int)),
            acc == digits_value(s@.subrange(0, i as int)),
            acc <= 0x8000_0000_0000_0000,
        decreases n - i,
    {
        let c = s[i] as u32;
        if c < 0x30 || c > 0x39 {
            assert(!is_digit(s@[i as int]));
            return None;
        }
        let ghost before = s@.subrange(0, i as int);
        let ghost longer = s@.subrange(0, i + 1);
        proof {
            assert(longer.drop_last() =~= before);
            assert(longer.last() == s@[i as int]);
            assert(all_digits(longer)) by {
                assert forall|j: int| 0 <= j < longer.len() implies is_digit(
                    #[trigger] longer[j],
                ) by {
                    if j < i {
                        assert(before[j] == longer[j]);
                    }
                }
            }
        }
        let next: u128 = acc * 10 + (c - 0x30) as u128;
        if next > 0x8000_0000_0000_0000 {
            // The number is already too large; it only matters now that
            // the rest are digits, which decides nothing: either way the
            // text writes no 64-bit integer.
            proof {
                if all_digits(s@) {
                    lemma_digits_grow(s@, i + 1);
                }
            }
            return None;
        }
        acc = next;
        i += 1;
    }
    assert(s@.subrange(0, n as int) =~= s@);
    Some(acc as u64)
}

/// Reads a 64-bit signed integer as `str::parse` does.
pub fn parse_integer_of(s: &[char]) -> (r: Option<i64>)
    ensures
        match r {
            Some(v) => parse_integer(s@) == Some(v as int),
            None => parse_integer(s@) is None,
        },
{
    let n = s.len();
    if n == 0 {
        return None;
    }
    let negative = s[0] == '-';
    let signed = negative || s[0] == '+';
    let digits = if signed {
        slice_subrange(s, 1, n)
    } else {
        slice_subrange(s, 0, n)
    };
    proof {
        if signed {
            assert(digits@ =~= s@.drop_first());
        } else {
            assert(digits@ =~= s@);
        }
    }
    match parse_digits(digits) {
        None => None,
        Some(v) => {
            if negative {
                if v == 0x8000_0000_0000_0000 {
                    Some(i64::MIN)
                } else {
                    Some(-(v as i64))
                }
            } else if v > 0x7fff_ffff_ffff_ffff {
                None
            } else {
                Some(v as i64)
            }
        },
    }
}

fn read_line(line: &[char]) -> (r: Option<i64>)
    ensures
        match r {
            Some(v) => line_reading(line@) == Some(v as int),
            None => line_reading(line@) is None,
        },
{
    let n = line.len();
    match find_marker(line, 0) {
        None => None,
        Some(at) => {
            proof {
                lemma_first_marker(line@, 0);
                assert(marker_at(line@, at as int));
            }
            let start = at + 6;
            let stop = match find_marker(line, start) {
                Some(next) => {
                    proof {
                        lemma_first_marker(line@, start as int);
                    }
                    next
                },
                None => n,
            };
            let text = slice_subrange(line, start, stop);
            parse_integer_of(trimmed_end(trimmed_start(without_closers(trimmed_end(
                trimmed_start(text),
            )))))
        },
    }
}

/// Reads the counter from what the statistics command printed. An output
/// that holds no reading gives `0`.
pub fn parse_stat_output(output: &str) -> (value: i64)
    ensures
        value == stat_value(output@),
{
    let chars = chars_of(output);
    let s = chars.as_slice();
    let n = s.len();
    let mut from: usize = 0;
    loop
        invariant
            from <= n,
            n == s@.len(),
            s@ == output@,
            stat_value(output@) == reading_from(s@, from as int),
        decreases n - from,
    {
        let mut end: usize = from;
        while end < n && s[end] != '\n'
            invariant
                from <= end <= n,
                n == s@.len(),
                line_end(s@, from as int) == line_end(s@, end as int),
            decreases n - end,
        {
            end += 1;
        }
        match read_line(slice_subrange(s, from, end)) {
            Some(v) => {
                return v;
            },
            None => {
                if end >= n {
                    return 0;
                }
                from = end + 1;
            },
        }
    }
}

/// An output in which the marker stands nowhere holds no reading: it reads
/// as `0`. The empty output is one such.
pub proof fn lemma_no_marker_reads_zero(output: Seq<char>)
    requires
        forall|i: int| !marker_at(output, i),
    ensures
        stat_value(output) == 0,
{
    lemma_no_marker_from(output, 0);
}

proof fn lemma_no_marker_from(s: Seq<char>, from: int)
    requires
        0 <= from <= s.len(),
        forall|i: int| !marker_at(s, i),
    ensures
        reading_from(s, from) == 0,
    decreases s.len() - from,
{
    lemma_line_end(s, from);
    let end = line_end(s, from);
    let line = s.subrange(from, end);
    lemma_first_marker(line, 0);
    if first_marker(line, 0) is Some {
        let at = first_marker(line, 0)->0;
        assert(line.subrange(at, at + 6) =~= s.subrange(from + at, from + at + 6));
        assert(marker_at(s, from + at));
    }
    if end < s.len() {
        lemma_no_marker_from(s, end + 1);
    }
}

} // verus!
