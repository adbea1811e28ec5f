//! Text helpers: characters of a string, decimal numerals.

use vstd::prelude::*;

verus! {

/// `String::push` appends one character to the end of the string.
pub assume_specification[ std::string::String::push ](s: &mut std::string::String, ch: char)
    ensures
        final(s)@ == old(s)@.push(ch),
;

/// The characters of `s`, in order.
pub fn chars_of(s: &str) -> (v: Vec<char>)
    ensures
        v@ == s@,
{
    let mut v: Vec<char> = Vec::new();
    for c in it: s.chars()
        invariant
            v@ == it.seq().take(it.index() as int),
            it.seq() == s@,
    {
        v.push(c);
    }
    v
}

/// The string made of the characters `v`, in order.
pub fn string_of(v: &Vec<char>) -> (s: String)
    ensures
        s@ == v@,
{
    let mut s = String::new();
    let mut i: usize = 0;
    while i < v.len()
        invariant
            i <= v.len(),
            s@ == v@.take(i as int),
        decreases v.len() - i,
    {
        s.push(v[i]);
        i += 1;
    }
    s
}

/// The character of the decimal digit `d`, for `0 <= d <= 9`.
pub open spec fn digit_char(d: int) -> char {
    ((d + 48) as u8) as char
}

/// Whether `c` is one of `0` to `9`.
pub open spec fn is_digit(c: char) -> bool {
    48 <= c as u32 <= 57
}

/// The number that the digit `c` stands for.
pub open spec fn digit_value(c: char) -> int {
    c as u32 - 48
}

/// The decimal numeral of `n`, without sign and without leading zeros.
pub open spec fn decimal_digits(n: nat) -> Seq<char>
    decreases n,
{
    if n < 10 {
        seq![digit_char(n as int)]
    } else {
        decimal_digits(n / 10).push(digit_char((n % 10) as int))
    }
}

/// The decimal numeral of `n`, with a leading `-` for a negative number.
pub open spec fn decimal(n: int) -> Seq<char> {
    if n < 0 {
        seq!['-'] + decimal_digits((-n) as nat)
    } else {
        decimal_digits(n as nat)
    }
}

/// The number that a sequence of digits denotes, most significant digit first.
pub open spec fn digits_value(s: Seq<char>) -> int
    decreases s.len(),
{
    if s.len() == 0 {
        0
    } else {
        digits_value(s.drop_last()) * 10 + digit_value(s.last())
    }
}

/// Whether every character of `s` is a decimal digit.
pub open spec fn all_digits(s: Seq<char>) -> bool {
    forall|i: int| 0 <= i < s.len() ==> is_digit(#[trigger] s[i])
}

/// Whether `s` begins with a sign character.
pub open spec fn has_sign(s: Seq<char>) -> bool {
    s.len() > 0 && (s[0] == '-' || s[0] == '+')
}

/// The digits of a numeral: what follows its sign, if it has one.
pub open spec fn numeral_body(s: Seq<char>) -> Seq<char> {
    if has_sign(s) {
        s.drop_first()
    } else {
        s
    }
}

/// The number that a numeral denotes: its digits' value, negated after `-`.
pub open spec fn numeral_value(s: Seq<char>) -> int {
    if s.len() > 0 && s[0] == '-' {
        -digits_value(numeral_body(s))
    } else {
        digits_value(numeral_body(s))
    }
}

/// Reads a signed 64-bit decimal numeral: an optional `+` or `-`, then one or
/// more digits and nothing else, denoting a number that fits in 64 bits.
pub open spec fn parse_decimal(s: Seq<char>) -> Option<i64> {
    if numeral_body(s).len() > 0 && all_digits(numeral_body(s)) && i64::MIN <= numeral_value(s)
        <= i64::MAX {
        Some(numeral_value(s) as i64)
    } else {
        None
    }
}

pub fn digits_of(m: u64) -> (v: Vec<char>)
    ensures
        v@ == decimal_digits(m as nat),
    decreases m,
{
    if m < 10 {
        let mut v: Vec<char> = Vec::new();
        v.push((m as u8 + 48) as char);
        v
    } else {
        let mut v = digits_of(m / 10);
        v.push(((m % 10) as u8 + 48) as char);
        v
    }
}

/// Writes `n` as a decimal numeral.
pub fn decimal_of(n: i64) -> (v: Vec<char>)
    ensures
        v@ == decimal(n as int),
{
    if n < 0 {
        let magnitude: u64 = (-(n + 1)) as u64 + 1;
        let mut v: Vec<char> = Vec::new();
        v.push('-');
        let mut digits = digits_of(magnitude);
        v.append(&mut digits);
        v
    } else {
        digits_of(n as u64)
    }
}

/// Appending a digit multiplies the value by ten and adds the digit.
proof fn lemma_digits_value_push(s: Seq<char>, c: char)
    ensures
        digits_value(s.push(c)) == digits_value(s) * 10 + digit_value(c),
{
    assert(s.push(c).drop_last() =~= s);
}

/// Bound on what fits in 64 bits with a sign, as a magnitude: `2^63`.
pub const MAGNITUDE_LIMIT: u64 = 0x8000_0000_0000_0000;

/// Reads a decimal numeral; see [`parse_decimal`].
pub fn parse_decimal_of(text: &Vec<char>) -> (r: Option<i64>)
    ensures
        r == parse_decimal(text@),
{
    let n = text.len();
    let negative = n > 0 && text[0] == '-';
    let start: usize = if n > 0 && (text[0] == '-' || text[0] == '+') {
        1
    } else {
        0
    };
    if start == n {
        return None;
    }
    let ghost body = numeral_body(text@);
    let mut acc: u64 = 0;
    let mut overflow = false;
    let mut i: usize = start;
    while i < n
        invariant
            start <= i <= n,
            n == text.len(),
            body == numeral_body(text@),
            body =~= text@.subrange(start as int, n as int),
            all_digits(body.take(i - start)),
            !overflow ==> acc == digits_value(body.take(i - start)) && acc <= MAGNITUDE_LIMIT,
            overflow ==> digits_value(body.take(i - start)) > MAGNITUDE_LIMIT,
        decreases n - i,
    {
        let c = text[i];
        let ghost before = body.take(i - start);
        let ghost after = body.take(i + 1 - start);
        proof {
            assert(after =~= before.push(c));
            lemma_digits_value_push(before, c);
        }
        let code = c as u32;
        if code < 48 || code > 57 {
            return None;
        }
        assert(all_digits(after)) by {
            assert forall|k: int| 0 <= k < after.len() implies is_digit(#[trigger] after[k]) by {}
        }
        let d: u64 = (code - 48) as u64;
        if !overflow {
            if acc > (MAGNITUDE_LIMIT - d) / 10 {
                overflow = true;
                assert(acc * 10 + d > MAGNITUDE_LIMIT) by (nonlinear_arith)
                    requires
                        acc > (MAGNITUDE_LIMIT - d) / 10,
                        d <= 9,
                ;
            } else {
                assert(acc * 10 + d <= MAGNITUDE_LIMIT) by (nonlinear_arith)
                    requires
                        acc <= (MAGNITUDE_LIMIT - d) / 10,
                        d <= 9,
                ;
                acc = acc * 10 + d;
            }
        } else {
            assert(digits_value(after) > MAGNITUDE_LIMIT) by (nonlinear_arith)
                requires
                    digits_value(after) == digits_value(before) * 10 + digit_value(c),
                    digits_value(before) > MAGNITUDE_LIMIT,
                    digit_value(c) >= 0,
            ;
        }
        i += 1;
    }
    assert(body.take(n - start) =~= body);
    if overflow {
        None
    } else if negative {
        if acc == MAGNITUDE_LIMIT {
            Some(i64::MIN)
        } else {
            Some(-(acc as i64))
        }
    } else if acc == MAGNITUDE_LIMIT {
        None
    } else {
        Some(acc as i64)
    }
}

/// The position of the first line feed in `s`, or the length of `s` where it
/// has none.
pub open spec fn line_end(s: Seq<char>) -> int
    decreases s.len(),
{
    if s.len() == 0 || s[0] == '\n' {
        0
    } else {
        1 + line_end(s.drop_first())
    }
}

/// A line without the carriage return that stood before its line feed.
pub open spec fn without_return(line: Seq<char>) -> Seq<char> {
    if line.len() > 0 && line.last() == '\r' {
        line.drop_last()
    } else {
        line
    }
}

/// The lines of a text. A line ends at a line feed, which is not part of it,
/// nor is a carriage return just before the line feed. What follows the last
/// line feed is a line of its own unless it is empty, and it keeps a carriage
/// return at its end.
pub open spec fn lines_of(s: Seq<char>) -> Seq<Seq<char>>
    decreases s.len(),
{
    if s.len() == 0 {
        Seq::empty()
    } else if line_end(s) < 0 || line_end(s) >= s.len() {
        seq![s]
    } else {
        seq![without_return(s.take(line_end(s)))] + lines_of(s.skip(line_end(s) + 1))
    }
}

/// Where the first line feed of `s` stands at `k`, `line_end` finds it.
proof fn lemma_line_end_is(s: Seq<char>, k: int)
    requires
        0 <= k <= s.len(),
        k < s.len() ==> s[k] == '\n',
        forall|i: int| 0 <= i < k ==> s[i] != '\n',
    ensures
        line_end(s) == k,
    decreases s.len(),
{
    if k > 0 {
        let rest = s.drop_first();
        assert forall|i: int| 0 <= i < k - 1 implies rest[i] != '\n' by {}
        lemma_line_end_is(rest, k - 1);
    }
}

/// Copies the characters of `text` from `from` up to `to`.
pub fn slice_of(text: &Vec<char>, from: usize, to: usize) -> (r: Vec<char>)
    requires
        from <= to <= text.len(),
    ensures
        r@ == text@.subrange(from as int, to as int),
{
    let mut r: Vec<char> = Vec::new();
    let mut i: usize = from;
    while i < to
        invariant
            from <= i <= to,
            to <= text.len(),
            r@ == text@.subrange(from as int, i as int),
        decreases to - i,
    {
        r.push(text[i]);
        i += 1;
    }
    r
}

/// Splits a text into its lines; see [`lines_of`].
pub fn split_lines(text: &Vec<char>) -> (lines: Vec<Vec<char>>)
    ensures
        lines@.len() == lines_of(text@).len(),
        forall|i: int| 0 <= i < lines@.len() ==> (#[trigger] lines@[i])@ == lines_of(text@)[i],
{
    let n = text.len();
    let mut lines: Vec<Vec<char>> = Vec::new();
    let mut start: usize = 0;
    let ghost mut done: Seq<Seq<char>> = Seq::empty();
    assert(text@.skip(0) =~= text@);
    while start < n
        invariant
            start <= n,
            n == text.len(),
            lines@.len() == done.len(),
            forall|i: int| 0 <= i < lines@.len() ==> (#[trigger] lines@[i])@ == done[i],
            lines_of(text@) == done + lines_of(text@.skip(start as int)),
        decreases n - start,
    {
        let ghost rest = text@.skip(start as int);
        let mut end: usize = start;
        while end < n && text[end] != '\n'
            invariant
                start <= end <= n,
                n == text.len(),
                forall|i: int| start <= i < end ==> text@[i] != '\n',
            decreases n - end,
        {
            end += 1;
        }
        proof {
            assert forall|i: int| 0 <= i < end - start implies rest[i] != '\n' by {}
            lemma_line_end_is(rest, end - start);
        }
        if end == n {
            let line = slice_of(text, start, n);
            proof {
                done = done.push(rest);
            }
            lines.push(line);
            start = n;
        } else {
            let stop: usize = if end > start && text[end - 1] == '\r' {
                end - 1
            } else {
                end
            };
            let line = slice_of(text, start, stop);
            proof {
                let raw = rest.take(end - start);
                assert(line@ =~= without_return(raw));
                assert(rest.skip(end - start + 1) =~= text@.skip(end + 1));
                done = done.push(line@);
            }
            lines.push(line);
            start = end + 1;
        }
    }
    lines
}

/// The lines joined by line feeds: a line feed stands between every two
/// lines, none before the first or after the last.
pub open spec fn joined(lines: Seq<Seq<char>>) -> Seq<char>
    decreases lines.len(),
{
    if lines.len() == 0 {
        Seq::empty()
    } else if lines.len() == 1 {
        lines[0]
    } else {
        joined(lines.drop_last()) + seq!['\n'] + lines.last()
    }
}

/// The contents of a list of lines.
pub open spec fn line_models(lines: Seq<Vec<char>>) -> Seq<Seq<char>> {
    Seq::new(lines.len(), |i: int| lines[i]@)
}

/// Joins lines by line feeds; see [`joined`].
pub fn join_lines(lines: &Vec<Vec<char>>) -> (text: Vec<char>)
    ensures
        text@ == joined(line_models(lines@)),
{
    let mut text: Vec<char> = Vec::new();
    let mut i: usize = 0;
    while i < lines.len()
        invariant
            i <= lines.len(),
            text@ == joined(line_models(lines@).take(i as int)),
        decreases lines.len() - i,
    {
        let ghost prefix = line_models(lines@).take(i + 1);
        assert(prefix.drop_last() =~= line_models(lines@).take(i as int));
        if i > 0 {
            text.push('\n');
        }
        let line = &lines[i];
        let mut k: usize = 0;
        let ghost base = text@;
        while k < line.len()
            invariant
                k <= line.len(),
                text@ == base + line@.take(k as int),
            decreases line.len() - k,
        {
            text.push(line[k]);
            k += 1;
        }
        i += 1;
    }
    assert(line_models(lines@).take(lines.len() as int) =~= line_models(lines@));
    text
}

} // verus!
