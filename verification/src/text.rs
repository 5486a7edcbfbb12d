//! Building the text of hardware writes: literals, strings and decimal numbers.

use vstd::prelude::*;
use vstd::string::{StrSliceExecFns, StringExecFns};

verus! {

/// The decimal digit that stands for `d`, for `d` below ten.
pub open spec fn digit_char(d: int) -> char {
    if d == 0 {
        '0'
    } else if d == 1 {
        '1'
    } else if d == 2 {
        '2'
    } else if d == 3 {
        '3'
    } else if d == 4 {
        '4'
    } else if d == 5 {
        '5'
    } else if d == 6 {
        '6'
    } else if d == 7 {
        '7'
    } else if d == 8 {
        '8'
    } else {
        '9'
    }
}

/// The decimal numeral of `n`, without sign or leading zeros.
pub open spec fn decimal(n: nat) -> Seq<char>
    decreases n,
{
    if n < 10 {
        seq![digit_char(n as int)]
    } else {
        decimal(n / 10).push(digit_char((n % 10) as int))
    }
}

/// Appends the digit `d` to `out`.
fn push_digit(out: &mut String, d: u64)
    requires
        d < 10,
    ensures
        final(out)@ == old(out)@.push(digit_char(d as int)),
{
    proof {
        reveal_strlit("0");
        reveal_strlit("1");
        reveal_strlit("2");
        reveal_strlit("3");
        reveal_strlit("4");
        reveal_strlit("5");
        reveal_strlit("6");
        reveal_strlit("7");
        reveal_strlit("8");
        reveal_strlit("9");
    }
    let digit: &str = if d == 0 {
        "0"
    } else if d == 1 {
        "1"
    } else if d == 2 {
        "2"
    } else if d == 3 {
        "3"
    } else if d == 4 {
        "4"
    } else if d == 5 {
        "5"
    } else if d == 6 {
        "6"
    } else if d == 7 {
        "7"
    } else if d == 8 {
        "8"
    } else {
        "9"
    };
    assert(digit@ =~= seq![digit_char(d as int)]);
    out.append(digit);
    assert(out@ =~= old(out)@.push(digit_char(d as int)));
}

/// Appends the decimal numeral of `n` to `out`.
pub fn push_decimal(out: &mut String, n: u64)
    ensures
        final(out)@ == old(out)@ + decimal(n as nat),
    decreases n,
{
    if n < 10 {
        push_digit(out, n);
        assert(out@ =~= old(out)@ + decimal(n as nat));
    } else {
        push_decimal(out, n / 10);
        push_digit(out, n % 10);
        assert(out@ =~= old(out)@ + decimal(n as nat));
    }
}

/// What each line of `v` reads, in order.
pub open spec fn lines(v: Seq<String>) -> Seq<Seq<char>> {
    Seq::new(v.len(), |i: int| v[i]@)
}

/// The lines of a list that grew by one are the old lines and the new one.
pub proof fn lemma_lines_push(v: Seq<String>, line: String)
    ensures
        lines(v.push(line)) == lines(v).push(line@),
{
    assert(lines(v.push(line)) =~= lines(v).push(line@));
}

/// The lines of two lists joined are the lines of the first, then those of the second.
pub proof fn lemma_lines_concat(a: Seq<String>, b: Seq<String>)
    ensures
        lines(a + b) == lines(a) + lines(b),
{
    assert(lines(a + b) =~= lines(a) + lines(b));
}

/// The shell line that writes `value` into the control file at `path`.
pub open spec fn echo_line(value: Seq<char>, path: Seq<char>) -> Seq<char> {
    "echo "@ + value + " > "@ + path
}

/// Builds the shell line that writes `value` into the control file at `path`.
pub fn echo(value: &str, path: &str) -> (line: String)
    ensures
        line@ == echo_line(value@, path@),
{
    let mut line = String::from_str("echo ");
    line.append(value);
    line.append(" > ");
    line.append(path);
    assert(line@ =~= echo_line(value@, path@));
    line
}

/// Puts `line` at the end of `out`.
pub fn push_line(out: &mut Vec<String>, line: String)
    ensures
        final(out)@ == old(out)@.push(line),
        lines(final(out)@) == lines(old(out)@).push(line@),
{
    out.push(line);
    proof {
        lemma_lines_push(old(out)@, line);
    }
}

/// The word a switch is written as: `on` where it is set, `off` where it is not.
pub open spec fn choice(flag: bool, on: Seq<char>, off: Seq<char>) -> Seq<char> {
    if flag {
        on
    } else {
        off
    }
}

/// The digit a switch is written as.
pub fn switch_digit(on: bool) -> (digit: &'static str)
    ensures
        digit@ == choice(on, "1"@, "0"@),
{
    if on {
        "1"
    } else {
        "0"
    }
}

/// The shell line that writes the number `n` into the control file at `path`.
pub fn echo_number(n: u64, path: &str) -> (line: String)
    ensures
        line@ == echo_line(decimal(n as nat), path@),
{
    let mut line = String::from_str("echo ");
    push_decimal(&mut line, n);
    line.append(" > ");
    line.append(path);
    assert(line@ =~= echo_line(decimal(n as nat), path@));
    line
}

/// `pattern` stands somewhere in `text`, character for character.
pub open spec fn has_substring(text: Seq<char>, pattern: Seq<char>) -> bool {
    exists|i: int|
        0 <= i <= text.len() - pattern.len() && #[trigger] text.subrange(
            i,
            i + pattern.len(),
        ) == pattern
}

/// Whether `pattern` stands in `text` from the character `at` on.
fn matches_at(text: &str, pattern: &str, at: usize) -> (found: bool)
    requires
        at + pattern@.len() <= text@.len(),
    ensures
        found == (text@.subrange(at as int, at + pattern@.len()) == pattern@),
{
    let length = text.unicode_len();
    let width = pattern.unicode_len();
    let ghost part = text@.subrange(at as int, at + width);
    let mut k: usize = 0;
    while k < width
        invariant
            k <= width,
            width == pattern@.len(),
            length == text@.len(),
            at + width <= text@.len(),
            part == text@.subrange(at as int, at + width),
            forall|j: int| 0 <= j < k ==> part[j] == pattern@[j],
        decreases width - k,
    {
        if text.get_char(at + k) != pattern.get_char(k) {
            assert(part[k as int] != pattern@[k as int]);
            return false;
        }
        k = k + 1;
    }
    assert(part =~= pattern@);
    true
}

/// Whether `pattern` stands somewhere in `text`.
pub fn contains_text(text: &str, pattern: &str) -> (found: bool)
    ensures
        found == has_substring(text@, pattern@),
{
    let length = text.unicode_len();
    let width = pattern.unicode_len();
    if width > length {
        return false;
    }
    let last = length - width;
    let mut i: usize = 0;
    while i < last
        invariant
            i <= last,
            last == length - width,
            length == text@.len(),
            width == pattern@.len(),
            forall|j: int| 0 <= j < i ==> #[trigger] text@.subrange(j, j + width) != pattern@,
        decreases last - i,
    {
        if matches_at(text, pattern, i) {
            return true;
        }
        i = i + 1;
    }
    matches_at(text, pattern, last)
}

/// `text` begins with `prefix`.
pub open spec fn starts_with(text: Seq<char>, prefix: Seq<char>) -> bool {
    prefix.len() <= text.len() && text.subrange(0, prefix.len() as int) == prefix
}

/// What follows `prefix` in `text`, where `text` begins with it.
pub fn strip_prefix<'a>(text: &'a str, prefix: &str) -> (rest: Option<&'a str>)
    ensures
        rest is Some <==> starts_with(text@, prefix@),
        rest matches Some(rest) ==> rest@ == text@.subrange(
            prefix@.len() as int,
            text@.len() as int,
        ),
{
    let length = text.unicode_len();
    let width = prefix.unicode_len();
    if width <= length && matches_at(text, prefix, 0) {
        Some(text.substring_char(width, length))
    } else {
        None
    }
}

/// The lines that are there, in order.
pub open spec fn present_lines(items: Seq<Option<Seq<char>>>) -> Seq<Seq<char>>
    decreases items.len(),
{
    if items.len() == 0 {
        seq![]
    } else {
        match items.last() {
            Some(line) => present_lines(items.drop_last()).push(line),
            None => present_lines(items.drop_last()),
        }
    }
}

/// Whether `a` and `b` read the same.
pub fn same_text(a: &str, b: &str) -> (same: bool)
    ensures
        same == (a@ == b@),
{
    String::from_str(a) == String::from_str(b)
}

/// `c` is white space: one of the characters with the Unicode property
/// White_Space.
pub open spec fn is_white_space(c: char) -> bool {
    let code = c as u32;
    ||| 0x09 <= code <= 0x0D
    ||| code == 0x20
    ||| code == 0x85
    ||| code == 0xA0
    ||| code == 0x1680
    ||| 0x2000 <= code <= 0x200A
    ||| code == 0x2028
    ||| code == 0x2029
    ||| code == 0x202F
    ||| code == 0x205F
    ||| code == 0x3000
}

/// `text` without the white space at its beginning.
pub open spec fn trim_start(text: Seq<char>) -> Seq<char>
    decreases text.len(),
{
    if text.len() > 0 && is_white_space(text[0]) {
        trim_start(text.drop_first())
    } else {
        text
    }
}

/// `text` without the white space at its end.
pub open spec fn trim_end(text: Seq<char>) -> Seq<char>
    decreases text.len(),
{
    if text.len() > 0 && is_white_space(text.last()) {
        trim_end(text.drop_last())
    } else {
        text
    }
}

/// `text` without the white space at its two ends.
pub open spec fn trimmed(text: Seq<char>) -> Seq<char> {
    trim_end(trim_start(text))
}

/// Whether `c` is white space.
pub fn white_space(c: char) -> (white: bool)
    ensures
        white == is_white_space(c),
{
    let code: u32 = c as u32;
    (0x09 <= code && code <= 0x0D) || code == 0x20 || code == 0x85 || code == 0xA0 || code
        == 0x1680 || (0x2000 <= code && code <= 0x200A) || code == 0x2028 || code == 0x2029
        || code == 0x202F || code == 0x205F || code == 0x3000
}

/// `text` without the white space at its two ends.
pub fn trim(text: &str) -> (inner: &str)
    ensures
        inner@ == trimmed(text@),
{
    let length = text.unicode_len();
    let mut start: usize = 0;
    assert(text@.subrange(0, length as int) =~= text@);
    while start < length
        invariant
            start <= length,
            length == text@.len(),
            trim_start(text@) == trim_start(text@.subrange(start as int, length as int)),
        ensures
            start <= length,
            trim_start(text@) == text@.subrange(start as int, length as int),
        decreases length - start,
    {
        let ghost rest = text@.subrange(start as int, length as int);
        assert(rest[0] == text@[start as int]);
        if !white_space(text.get_char(start)) {
            break;
        }
        assert(rest.drop_first() =~= text@.subrange(start + 1, length as int));
        start = start + 1;
    }
    let mut end: usize = length;
    while end > start
        invariant
            start <= end <= length,
            length == text@.len(),
            trimmed(text@) == trim_end(text@.subrange(start as int, end as int)),
        ensures
            start <= end <= length,
            trimmed(text@) == text@.subrange(start as int, end as int),
        decreases end - start,
    {
        let ghost rest = text@.subrange(start as int, end as int);
        assert(rest.last() == text@[end - 1]);
        if !white_space(text.get_char(end - 1)) {
            break;
        }
        assert(rest.drop_last() =~= text@.subrange(start as int, end - 1));
        end = end - 1;
    }
    text.substring_char(start, end)
}

} // verus!
