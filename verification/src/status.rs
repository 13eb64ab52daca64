//! Reading the parent PID out of the text of `/proc/<pid>/status`.
//!
//! The text is split into lines at `'\n'`; the first line that starts with
//! `PPid:` holds the field. Its value is the rest of that line with Unicode
//! white space removed at both ends, read as a decimal `i32` the way
//! `str::parse::<i32>` reads it.
use vstd::prelude::*;

use crate::text::{decimal, decimal_digits, digit_char};

verus! {

broadcast use vstd::string::group_string_axioms;

/// Unicode `White_Space`, the property that `char::is_whitespace` and
/// `str::trim` go by.
pub open spec fn is_unicode_whitespace(c: char) -> bool {
    let u = c as u32;
    ||| 0x09 <= u <= 0x0d
    ||| u == 0x20
    ||| u == 0x85
    ||| u == 0xa0
    ||| u == 0x1680
    ||| 0x2000 <= u <= 0x200a
    ||| u == 0x2028
    ||| u == 0x2029
    ||| u == 0x202f
    ||| u == 0x205f
    ||| u == 0x3000
}

/// Index of the first character at or after `i` that is not white space
/// (or the length).
pub open spec fn skip_ws_forward(s: Seq<char>, i: int) -> int
    decreases s.len() - i,
{
    if 0 <= i < s.len() && is_unicode_whitespace(s[i]) {
        skip_ws_forward(s, i + 1)
    } else {
        i
    }
}

/// Index just past the last character before `j` that is not white space
/// (or 0).
pub open spec fn skip_ws_backward(s: Seq<char>, j: int) -> int
    decreases j,
{
    if 0 < j <= s.len() && is_unicode_whitespace(s[j - 1]) {
        skip_ws_backward(s, j - 1)
    } else {
        j
    }
}

/// `s` without leading and trailing white space, as `str::trim` gives it.
pub open spec fn trim(s: Seq<char>) -> Seq<char> {
    let t = s.skip(skip_ws_forward(s, 0));
    t.take(skip_ws_backward(t, t.len() as int))
}

/// Why a text is not a decimal `i32` (the kinds of `std::num::IntErrorKind`
/// that parsing an `i32` can give).
#[derive(Debug, Clone, Copy, PartialEq, Eq, Structural)]
pub enum IntErrorKind {
    /// The text is empty.
    Empty,
    /// The text holds a character that is not a digit where one is needed.
    InvalidDigit,
    /// The number is greater than `i32::MAX`.
    PosOverflow,
    /// The number is less than `i32::MIN`.
    NegOverflow,
}

/// The text that `std::num::ParseIntError` displays for each kind.
pub open spec fn int_error_text(kind: IntErrorKind) -> Seq<char> {
    match kind {
        IntErrorKind::Empty => "cannot parse integer from empty string"@,
        IntErrorKind::InvalidDigit => "invalid digit found in string"@,
        IntErrorKind::PosOverflow => "number too large to fit in target type"@,
        IntErrorKind::NegOverflow => "number too small to fit in target type"@,
    }
}

impl IntErrorKind {
    /// The text that `std::num::ParseIntError` displays for this kind.
    pub fn description(&self) -> (r: &'static str)
        ensures
            r@ == int_error_text(*self),
    {
        match self {
            IntErrorKind::Empty => "cannot parse integer from empty string",
            IntErrorKind::InvalidDigit => "invalid digit found in string",
            IntErrorKind::PosOverflow => "number too large to fit in target type",
            IntErrorKind::NegOverflow => "number too small to fit in target type",
        }
    }
}

pub open spec fn is_ascii_digit(c: char) -> bool {
    '0' <= c <= '9'
}

pub open spec fn digit_value(c: char) -> int {
    c as int - '0' as int
}

/// Reads the digits `t[i..]` onto `value`, left to right, stopping at the
/// first character that is not a digit or at the first step that leaves
/// the `i32` range.
pub open spec fn accumulate_digits(t: Seq<char>, i: int, negative: bool, value: int) -> Result<
    i32,
    IntErrorKind,
>
    decreases t.len() - i,
{
    if i < 0 || i >= t.len() {
        Ok(value as i32)
    } else if !is_ascii_digit(t[i]) {
        Err(IntErrorKind::InvalidDigit)
    } else {
        let next = if negative {
            value * 10 - digit_value(t[i])
        } else {
            value * 10 + digit_value(t[i])
        };
        if next < i32::MIN {
            Err(IntErrorKind::NegOverflow)
        } else if next > i32::MAX {
            Err(IntErrorKind::PosOverflow)
        } else {
            accumulate_digits(t, i + 1, negative, next)
        }
    }
}

/// `str::parse::<i32>`: an optional `+` or `-`, then one or more decimal
/// digits whose value fits in an `i32`.
pub open spec fn parse_i32(t: Seq<char>) -> Result<i32, IntErrorKind> {
    if t.len() == 0 {
        Err(IntErrorKind::Empty)
    } else if (t[0] == '+' || t[0] == '-') && t.len() == 1 {
        Err(IntErrorKind::InvalidDigit)
    } else if t[0] == '+' {
        accumulate_digits(t, 1, false, 0)
    } else if t[0] == '-' {
        accumulate_digits(t, 1, true, 0)
    } else {
        accumulate_digits(t, 0, false, 0)
    }
}

/// End of the line that starts at `i`: the index of the first `'\n'` at or
/// after `i`, or the length of the text.
pub open spec fn line_end(s: Seq<char>, i: int) -> int
    decreases s.len() - i,
{
    if i < 0 || i >= s.len() || s[i] == '\n' {
        i
    } else {
        line_end(s, i + 1)
    }
}

pub proof fn lemma_line_end_bounds(s: Seq<char>, i: int)
    requires
        0 <= i <= s.len(),
    ensures
        i <= line_end(s, i) <= s.len(),
        line_end(s, i) < s.len() ==> s[line_end(s, i)] == '\n',
    decreases s.len() - i,
{
    if i < s.len() && s[i] != '\n' {
        lemma_line_end_bounds(s, i + 1);
    }
}

/// The prefix that names the parent PID field.
pub open spec fn ppid_key() -> Seq<char> {
    seq!['P', 'P', 'i', 'd', ':']
}

pub open spec fn starts_with_ppid_key(line: Seq<char>) -> bool {
    line.len() >= 5 && line.take(5) == ppid_key()
}

/// The rest of the first line at or after the line start `i` that begins
/// with `PPid:`, if there is one.
pub open spec fn ppid_field_from(s: Seq<char>, i: int) -> Option<Seq<char>>
    decreases s.len() - i,
{
    if i < 0 || i > s.len() {
        None
    } else {
        let e = line_end(s, i);
        if starts_with_ppid_key(s.subrange(i, e)) {
            Some(s.subrange(i + 5, e))
        } else if e >= s.len() {
            None
        } else {
            proof {
                lemma_line_end_bounds(s, i);
            }
            ppid_field_from(s, e + 1)
        }
    }
}

/// Why the parent PID could not be read from a status text.
#[derive(Debug, Clone, Copy, PartialEq, Eq, Structural)]
pub enum StatusParseError {
    /// No line starts with `PPid:`.
    FieldNotFound,
    /// The field's value is not a decimal `i32`.
    InvalidPpid(IntErrorKind),
}

/// The parent PID that a status text states.
pub open spec fn spec_status_ppid(s: Seq<char>) -> Result<i32, StatusParseError> {
    match ppid_field_from(s, 0) {
        None => Err(StatusParseError::FieldNotFound),
        Some(value) => match parse_i32(trim(value)) {
            Ok(ppid) => Ok(ppid),
            Err(kind) => Err(StatusParseError::InvalidPpid(kind)),
        },
    }
}

fn is_whitespace(c: char) -> (r: bool)
    ensures
        r == is_unicode_whitespace(c),
{
    let u = c as u32;
    (0x09 <= u && u <= 0x0d) || u == 0x20 || u == 0x85 || u == 0xa0 || u == 0x1680 || (0x2000
        <= u && u <= 0x200a) || u == 0x2028 || u == 0x2029 || u == 0x202f || u == 0x205f || u
        == 0x3000
}

/// The characters of `s`, in order.
fn chars_of(s: &str) -> (v: Vec<char>)
    ensures
        v@ == s@,
{
    let mut v: Vec<char> = Vec::new();
    for c in it: s.chars()
        invariant
            it.seq() == s@,
            v@ == it.seq().take(it.index() as int),
    {
        v.push(c);
    }
    v
}

pub proof fn lemma_decimal_len(n: nat)
    ensures
        decimal_digits(n).len() >= 1,
{
    lemma_decimal_digits_are_digits(n);
}

proof fn lemma_decimal_digits_are_digits(n: nat)
    ensures
        decimal_digits(n).len() >= 1,
        forall|k: int|
            0 <= k < decimal_digits(n).len() ==> is_ascii_digit(#[trigger] decimal_digits(n)[k]),
    decreases n,
{
    if n >= 10 {
        lemma_decimal_digits_are_digits(n / 10);
    }
}

/// Reading the decimal digits of `n` (found at `pre.len()` in `t`) onto 0
/// arrives at `n` (or `-n`) at their end, when that stays in the `i32` range.
proof fn lemma_accumulate_decimal_digits(pre: Seq<char>, n: nat, tail: Seq<char>, negative: bool)
    requires
        negative ==> n <= 0x8000_0000,
        !negative ==> n <= 0x7fff_ffff,
    ensures
        accumulate_digits(pre + decimal_digits(n) + tail, pre.len() as int, negative, 0)
            == accumulate_digits(
            pre + decimal_digits(n) + tail,
            (pre.len() + decimal_digits(n).len()) as int,
            negative,
            if negative {
                -n
            } else {
                n as int
            },
        ),
    decreases n,
{
    let t = pre + decimal_digits(n) + tail;
    let d = digit_char((n % 10) as nat);
    assert(digit_value(d) == n % 10);
    if n < 10 {
        assert(t[pre.len() as int] == d);
    } else {
        let high = decimal_digits((n / 10) as nat);
        let rest = seq![d] + tail;
        assert(t =~= pre + high + rest);
        lemma_accumulate_decimal_digits(pre, (n / 10) as nat, rest, negative);
        assert(t[(pre.len() + high.len()) as int] == d);
        lemma_decimal_digits_are_digits((n / 10) as nat);
    }
}

/// Reading the decimal text of an `i32` gives it back.
pub proof fn law_parse_reads_decimal(v: i32)
    ensures
        parse_i32(decimal(v as int)) == Ok::<i32, IntErrorKind>(v),
{
    let e = Seq::<char>::empty();
    if v >= 0 {
        let t = decimal_digits(v as nat);
        lemma_decimal_digits_are_digits(v as nat);
        assert(t =~= e + t + e);
        lemma_accumulate_decimal_digits(e, v as nat, e, false);
        assert(is_ascii_digit(t[0]));
    } else {
        let m = (-v) as nat;
        let t = seq!['-'] + decimal_digits(m);
        lemma_decimal_digits_are_digits(m);
        assert(t =~= seq!['-'] + decimal_digits(m) + e);
        lemma_accumulate_decimal_digits(seq!['-'], m, e, true);
    }
}

proof fn lemma_line_end_at_newline(s: Seq<char>, i: int, k: int)
    requires
        0 <= i <= k < s.len(),
        s[k] == '\n',
        forall|j: int| i <= j < k ==> s[j] != '\n',
    ensures
        line_end(s, i) == k,
    decreases k - i,
{
    if i < k {
        lemma_line_end_at_newline(s, i + 1, k);
    }
}

/// A status line `PPid:\t<v>` — the way the kernel writes the field —
/// reads back as `v`.
pub proof fn law_status_reads_written_ppid(v: i32)
    ensures
        spec_status_ppid(ppid_key() + seq!['\t'] + decimal(v as int) + seq!['\n']) == Ok::<
            i32,
            StatusParseError,
        >(v),
{
    let d = decimal(v as int);
    let s = ppid_key() + seq!['\t'] + d + seq!['\n'];
    let k = s.len() - 1;
    lemma_decimal_digits_are_digits(if v < 0 {
        (-v) as nat
    } else {
        v as nat
    });
    assert forall|j: int| 0 <= j < k implies s[j] != '\n' by {
        if j >= 6 {
            assert(s[j] == d[j - 6]);
            if v < 0 && j > 6 {
                assert(d[j - 6] == decimal_digits((-v) as nat)[j - 7]);
            }
        }
    }
    lemma_line_end_at_newline(s, 0, k);
    assert(s.subrange(0, k).take(5) =~= ppid_key());
    let value = s.subrange(5, k);
    assert(value =~= seq!['\t'] + d);
    assert(d.len() >= 1);
    assert(!is_unicode_whitespace(d[0])) by {
        if v >= 0 {
            assert(is_ascii_digit(decimal_digits(v as nat)[0]));
        }
    }
    assert(!is_unicode_whitespace(d[d.len() - 1])) by {
        if v >= 0 {
            assert(is_ascii_digit(decimal_digits(v as nat)[d.len() - 1]));
        } else {
            let m = (-v) as nat;
            assert(d[d.len() - 1] == decimal_digits(m)[decimal_digits(m).len() - 1]);
        }
    }
    assert(skip_ws_forward(value, 1) == 1);
    assert(skip_ws_forward(value, 0) == 1);
    let t = value.skip(1);
    assert(t =~= d);
    assert(skip_ws_backward(t, t.len() as int) == t.len());
    assert(trim(value) =~= d);
    law_parse_reads_decimal(v);
}

/// Whether `i` is where a line of `s` starts (the start of the text or just
/// after a `'\n'`).
pub open spec fn is_line_start(s: Seq<char>, i: int) -> bool {
    0 <= i <= s.len() && (i == 0 || s[i - 1] == '\n')
}

/// No line of `s` starts with `PPid:`.
pub open spec fn has_no_ppid_line(s: Seq<char>) -> bool {
    forall|i: int|
        #[trigger] is_line_start(s, i) ==> !starts_with_ppid_key(s.subrange(i, line_end(s, i)))
}

/// What the first `PPid:` line says: its value after the key, trimmed and
/// read as an `i32`.
pub open spec fn ppid_line_value(line: Seq<char>) -> Result<i32, StatusParseError> {
    match parse_i32(trim(line.skip(5))) {
        Ok(ppid) => Ok(ppid),
        Err(kind) => Err(StatusParseError::InvalidPpid(kind)),
    }
}

proof fn lemma_line_end_in_prefix(pre: Seq<char>, rest: Seq<char>, i: int)
    requires
        0 <= i < pre.len(),
        pre[pre.len() - 1] == '\n',
    ensures
        line_end(pre + rest, i) == line_end(pre, i),
        i <= line_end(pre, i) < pre.len(),
        pre[line_end(pre, i)] == '\n',
    decreases pre.len() - i,
{
    let s = pre + rest;
    assert(s[i] == pre[i]);
    if pre[i] != '\n' {
        lemma_line_end_in_prefix(pre, rest, i + 1);
    }
}

proof fn lemma_skip_lines_without_ppid(pre: Seq<char>, rest: Seq<char>, i: int)
    requires
        pre.len() > 0,
        pre[pre.len() - 1] == '\n',
        has_no_ppid_line(pre),
        is_line_start(pre, i),
    ensures
        ppid_field_from(pre + rest, i) == ppid_field_from(pre + rest, pre.len() as int),
    decreases pre.len() - i,
{
    let s = pre + rest;
    if i < pre.len() {
        lemma_line_end_in_prefix(pre, rest, i);
        let e = line_end(pre, i);
        assert(s.subrange(i, e) =~= pre.subrange(i, e));
        assert(is_line_start(pre, i));
        assert(is_line_start(pre, e + 1));
        lemma_skip_lines_without_ppid(pre, rest, e + 1);
    }
}

proof fn lemma_line_end_at_text_end(s: Seq<char>, i: int)
    requires
        0 <= i <= s.len(),
        forall|j: int| i <= j < s.len() ==> s[j] != '\n',
    ensures
        line_end(s, i) == s.len(),
    decreases s.len() - i,
{
    if i < s.len() {
        lemma_line_end_at_text_end(s, i + 1);
    }
}

/// The first line that starts with `PPid:` decides: lines before it that
/// do not start with `PPid:` do not matter, and nothing after it matters,
/// not even a later `PPid:` line.
pub proof fn law_first_ppid_line_decides(pre: Seq<char>, line: Seq<char>, post: Seq<char>)
    requires
        pre.len() == 0 || pre[pre.len() - 1] == '\n',
        has_no_ppid_line(pre),
        starts_with_ppid_key(line),
        forall|j: int| 0 <= j < line.len() ==> line[j] != '\n',
        post.len() == 0 || post[0] == '\n',
    ensures
        spec_status_ppid(pre + line + post) == ppid_line_value(line),
{
    let s = pre + line + post;
    let start = pre.len() as int;
    let end = start + line.len();
    if pre.len() > 0 {
        assert(s =~= pre + (line + post));
        lemma_skip_lines_without_ppid(pre, line + post, 0);
    }
    if post.len() == 0 {
        assert forall|j: int| start <= j < s.len() implies s[j] != '\n' by {
            assert(s[j] == line[j - start]);
        }
        lemma_line_end_at_text_end(s, start);
    } else {
        assert forall|j: int| start <= j < end implies s[j] != '\n' by {
            assert(s[j] == line[j - start]);
        }
        assert(s[end] == post[0]);
        lemma_line_end_at_newline(s, start, end);
    }
    assert(s.subrange(start, end) =~= line);
    assert(s.subrange(start + 5, end) =~= line.skip(5));
}

/// A text in which no line starts with `PPid:` has no parent PID field.
pub proof fn law_no_ppid_line_not_found(s: Seq<char>)
    requires
        has_no_ppid_line(s),
    ensures
        spec_status_ppid(s) == Err::<i32, StatusParseError>(StatusParseError::FieldNotFound),
{
    lemma_no_ppid_from(s, 0);
}

proof fn lemma_no_ppid_from(s: Seq<char>, i: int)
    requires
        has_no_ppid_line(s),
        is_line_start(s, i),
    ensures
        ppid_field_from(s, i) is None,
    decreases s.len() - i,
{
    lemma_line_end_bounds(s, i);
    let e = line_end(s, i);
    if e < s.len() {
        assert(is_line_start(s, e + 1));
        lemma_no_ppid_from(s, e + 1);
    }
}

/// Index of the end of the line that starts at `i`.
fn find_line_end(v: &Vec<char>, i: usize) -> (e: usize)
    requires
        i <= v@.len(),
    ensures
        e == line_end(v@, i as int),
        i <= e <= v@.len(),
{
    let mut e = i;
    while e < v.len() && v[e] != '\n'
        invariant
            i <= e <= v@.len(),
            line_end(v@, e as int) == line_end(v@, i as int),
        decreases v@.len() - e,
    {
        e = e + 1;
    }
    e
}

/// Whether `v[i..e]` starts with `PPid:`.
fn has_ppid_key(v: &Vec<char>, i: usize, e: usize) -> (r: bool)
    requires
        i <= e <= v@.len(),
    ensures
        r == starts_with_ppid_key(v@.subrange(i as int, e as int)),
{
    if e - i < 5 {
        return false;
    }
    let r = v[i] == 'P' && v[i + 1] == 'P' && v[i + 2] == 'i' && v[i + 3] == 'd' && v[i + 4] == ':';
    proof {
        let line = v@.subrange(i as int, e as int);
        if r {
            assert(line.take(5) =~= ppid_key());
        } else {
            if line.take(5) == ppid_key() {
                assert(line.take(5)[0] == 'P');
                assert(line.take(5)[1] == 'P');
                assert(line.take(5)[2] == 'i');
                assert(line.take(5)[3] == 'd');
                assert(line.take(5)[4] == ':');
            }
        }
    }
    r
}

/// Bounds of `trim(v[a..b])` inside `v`.
fn trim_bounds(v: &Vec<char>, a: usize, b: usize) -> (r: (usize, usize))
    requires
        a <= b <= v@.len(),
    ensures
        a <= r.0 <= r.1 <= b,
        v@.subrange(r.0 as int, r.1 as int) == trim(v@.subrange(a as int, b as int)),
{
    let ghost t = v@.subrange(a as int, b as int);
    let mut lo = a;
    while lo < b && is_whitespace(v[lo])
        invariant
            a <= lo <= b <= v@.len(),
            t == v@.subrange(a as int, b as int),
            skip_ws_forward(t, (lo - a) as int) == skip_ws_forward(t, 0),
        decreases b - lo,
    {
        lo = lo + 1;
    }
    let ghost u = t.skip((lo - a) as int);
    assert(u =~= v@.subrange(lo as int, b as int));
    let mut hi = b;
    while hi > lo && is_whitespace(v[hi - 1])
        invariant
            a <= lo <= hi <= b <= v@.len(),
            u == v@.subrange(lo as int, b as int),
            skip_ws_backward(u, (hi - lo) as int) == skip_ws_backward(u, u.len() as int),
        decreases hi - lo,
    {
        hi = hi - 1;
    }
    assert(u.take((hi - lo) as int) =~= v@.subrange(lo as int, hi as int));
    (lo, hi)
}

/// Reads the digits `v[i..hi]` onto `value` as `accumulate_digits` says.
fn accumulate_digits_exec(v: &Vec<char>, lo: usize, hi: usize, start: usize, negative: bool) -> (r:
    Result<i32, IntErrorKind>)
    requires
        lo <= start <= hi <= v@.len(),
    ensures
        r == accumulate_digits(v@.subrange(lo as int, hi as int), (start - lo) as int, negative, 0),
{
    let ghost t = v@.subrange(lo as int, hi as int);
    let mut i = start;
    let mut value: i32 = 0;
    while i < hi
        invariant
            lo <= start <= i <= hi <= v@.len(),
            t == v@.subrange(lo as int, hi as int),
            accumulate_digits(t, (i - lo) as int, negative, value as int) == accumulate_digits(
                t,
                (start - lo) as int,
                negative,
                0,
            ),
        decreases hi - i,
    {
        let c = v[i];
        assert(t[(i - lo) as int] == c);
        if !('0' <= c && c <= '9') {
            return Err(IntErrorKind::InvalidDigit);
        }
        let d = (c as u32 - '0' as u32) as i64;
        let next: i64 = if negative {
            value as i64 * 10 - d
        } else {
            value as i64 * 10 + d
        };
        if next < i32::MIN as i64 {
            return Err(IntErrorKind::NegOverflow);
        }
        if next > i32::MAX as i64 {
            return Err(IntErrorKind::PosOverflow);
        }
        value = next as i32;
        i = i + 1;
    }
    Ok(value)
}

/// `v[lo..hi]` read as `str::parse::<i32>` reads it.
fn parse_i32_range(v: &Vec<char>, lo: usize, hi: usize) -> (r: Result<i32, IntErrorKind>)
    requires
        lo <= hi <= v@.len(),
    ensures
        r == parse_i32(v@.subrange(lo as int, hi as int)),
{
    let ghost t = v@.subrange(lo as int, hi as int);
    if lo == hi {
        return Err(IntErrorKind::Empty);
    }
    let first = v[lo];
    assert(t[0] == first);
    if (first == '+' || first == '-') && hi - lo == 1 {
        return Err(IntErrorKind::InvalidDigit);
    }
    if first == '+' {
        accumulate_digits_exec(v, lo, hi, lo + 1, false)
    } else if first == '-' {
        accumulate_digits_exec(v, lo, hi, lo + 1, true)
    } else {
        accumulate_digits_exec(v, lo, hi, lo, false)
    }
}

/// Reads the parent PID out of the text of a `/proc/<pid>/status` file.
pub fn parse_status_ppid(content: &str) -> (r: Result<i32, StatusParseError>)
    ensures
        r == spec_status_ppid(content@),
{
    let v = chars_of(content);
    let n = v.len();
    let mut i: usize = 0;
    loop
        invariant
            i <= n,
            n == v@.len(),
            v@ == content@,
            ppid_field_from(v@, i as int) == ppid_field_from(v@, 0),
        decreases n - i,
    {
        let e = find_line_end(&v, i);
        if has_ppid_key(&v, i, e) {
            let (lo, hi) = trim_bounds(&v, i + 5, e);
            return match parse_i32_range(&v, lo, hi) {
                Ok(ppid) => Ok(ppid),
                Err(kind) => Err(StatusParseError::InvalidPpid(kind)),
            };
        }
        if e >= n {
            return Err(StatusParseError::FieldNotFound);
        }
        i = e + 1;
    }
}

} // verus!
