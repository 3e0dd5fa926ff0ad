//! Byte-level tokenizing and integer parsing shared by all samplers.
//!
//! Sources are ASCII text; every function works on a byte slice together
//! with a pair of indices, so no slicing or allocation is needed.  Each
//! executable function is proved equal to a recursive specification
//! function, and the samplers' contracts are stated over those.

use crate::Error;
use vstd::prelude::*;

verus! {

/// ASCII whitespace, as `str::split_ascii_whitespace` sees it:
/// space, tab, line feed, form feed, carriage return.
pub open spec fn is_ws(b: u8) -> bool {
    b == 32 || b == 9 || b == 10 || b == 12 || b == 13
}

/// ASCII decimal digit.
pub open spec fn is_digit(b: u8) -> bool {
    48 <= b && b <= 57
}

fn is_ws_byte(b: u8) -> (r: bool)
    ensures
        r == is_ws(b),
{
    b == 32 || b == 9 || b == 10 || b == 12 || b == 13
}

/// Index of the first non-whitespace byte at or after `i`, or `end`.
pub open spec fn spec_skip_ws(s: Seq<u8>, i: int, end: int) -> int
    decreases end - i,
{
    if i < 0 || i >= end {
        end
    } else if is_ws(s[i]) {
        spec_skip_ws(s, i + 1, end)
    } else {
        i
    }
}

/// Index of the first whitespace byte at or after `i`, or `end`.
pub open spec fn spec_token_end(s: Seq<u8>, i: int, end: int) -> int
    decreases end - i,
{
    if i < 0 || i >= end {
        end
    } else if is_ws(s[i]) {
        i
    } else {
        spec_token_end(s, i + 1, end)
    }
}

/// Index of the first line feed at or after `i`, or the end of the input.
pub open spec fn spec_line_end(s: Seq<u8>, i: int) -> int
    decreases s.len() - i,
{
    if i < 0 || i >= s.len() {
        s.len() as int
    } else if s[i] == 10 {
        i
    } else {
        spec_line_end(s, i + 1)
    }
}

pub proof fn lemma_skip_ws_bounds(s: Seq<u8>, i: int, end: int)
    requires
        0 <= i <= end <= s.len(),
    ensures
        i <= spec_skip_ws(s, i, end) <= end,
        spec_skip_ws(s, i, end) < end ==> !is_ws(s[spec_skip_ws(s, i, end)]),
    decreases end - i,
{
    if i < end && is_ws(s[i]) {
        lemma_skip_ws_bounds(s, i + 1, end);
    }
}

pub proof fn lemma_token_end_bounds(s: Seq<u8>, i: int, end: int)
    requires
        0 <= i <= end <= s.len(),
    ensures
        i <= spec_token_end(s, i, end) <= end,
        spec_token_end(s, i, end) < end ==> is_ws(s[spec_token_end(s, i, end)]),
        i < end && !is_ws(s[i]) ==> spec_token_end(s, i, end) > i,
    decreases end - i,
{
    if i < end && !is_ws(s[i]) {
        lemma_token_end_bounds(s, i + 1, end);
    }
}

pub broadcast proof fn lemma_line_end_bounds(s: Seq<u8>, i: int)
    requires
        0 <= i <= s.len(),
    ensures
        i <= #[trigger] spec_line_end(s, i) <= s.len(),
    decreases s.len() - i,
{
    if i < s.len() && s[i] != 10 {
        lemma_line_end_bounds(s, i + 1);
    }
}

/// Start of the line after the one holding `i`: one past its line feed,
/// or the end of the input for the last line.
pub open spec fn spec_skip_line(s: Seq<u8>, i: int) -> int {
    if spec_line_end(s, i) < s.len() {
        spec_line_end(s, i) + 1
    } else {
        s.len() as int
    }
}

pub fn skip_line(s: &[u8], i: usize) -> (r: usize)
    requires
        i <= s@.len(),
    ensures
        r == spec_skip_line(s@, i as int),
        i <= r <= s@.len(),
        i < s@.len() ==> r > i,
{
    let e = line_end(s, i);
    if e < s.len() {
        e + 1
    } else {
        e
    }
}

pub fn skip_ws(s: &[u8], i: usize, end: usize) -> (r: usize)
    requires
        i <= end <= s@.len(),
    ensures
        r == spec_skip_ws(s@, i as int, end as int),
        i <= r <= end,
{
    let mut j = i;
    while j < end && is_ws_byte(s[j])
        invariant
            i <= j <= end <= s@.len(),
            spec_skip_ws(s@, i as int, end as int) == spec_skip_ws(s@, j as int, end as int),
        decreases end - j,
    {
        j = j + 1;
    }
    j
}

pub fn token_end(s: &[u8], i: usize, end: usize) -> (r: usize)
    requires
        i <= end <= s@.len(),
    ensures
        r == spec_token_end(s@, i as int, end as int),
        i <= r <= end,
{
    let mut j = i;
    while j < end && !is_ws_byte(s[j])
        invariant
            i <= j <= end <= s@.len(),
            spec_token_end(s@, i as int, end as int) == spec_token_end(s@, j as int, end as int),
        decreases end - j,
    {
        j = j + 1;
    }
    j
}

pub fn line_end(s: &[u8], i: usize) -> (r: usize)
    requires
        i <= s@.len(),
    ensures
        r == spec_line_end(s@, i as int),
        i <= r <= s@.len(),
{
    let mut j = i;
    while j < s.len() && s[j] != 10
        invariant
            i <= j <= s@.len(),
            spec_line_end(s@, i as int) == spec_line_end(s@, j as int),
        decreases s@.len() - j,
    {
        j = j + 1;
    }
    j
}

/// Some byte of `s[i..e)` is a colon: the line holds a connection record.
pub open spec fn spec_line_has_colon(s: Seq<u8>, i: int, e: int) -> bool {
    exists|j: int| i <= j < e && #[trigger] s[j] == 58
}

fn line_has_colon(s: &[u8], i: usize, e: usize) -> (r: bool)
    requires
        i <= e <= s@.len(),
    ensures
        r == spec_line_has_colon(s@, i as int, e as int),
{
    let mut j = i;
    while j < e
        invariant
            i <= j <= e <= s@.len(),
            forall|k: int| i <= k < j ==> #[trigger] s@[k] != 58,
        decreases e - j,
    {
        if s[j] == 58 {
            assert(spec_line_has_colon(s@, i as int, e as int)) by {
                assert(s@[j as int] == 58);
            }
            return true;
        }
        j = j + 1;
    }
    false
}

/// How many lines of `s[i..)` hold a colon.
pub open spec fn spec_count_colon_lines(s: Seq<u8>, i: int) -> nat
    decreases s.len() - i,
        via spec_count_colon_lines_decreases
{
    if i < 0 || i >= s.len() {
        0
    } else {
        (if spec_line_has_colon(s, i, spec_line_end(s, i)) {
            1nat
        } else {
            0nat
        }) + spec_count_colon_lines(s, spec_skip_line(s, i))
    }
}

#[via_fn]
proof fn spec_count_colon_lines_decreases(s: Seq<u8>, i: int) {
    if 0 <= i < s.len() {
        lemma_line_end_bounds(s, i);
    }
}

/// How many lines `s[i..)` has in all.
pub open spec fn spec_count_lines(s: Seq<u8>, i: int) -> nat
    decreases s.len() - i,
        via spec_count_lines_decreases
{
    if i < 0 || i >= s.len() {
        0
    } else {
        1 + spec_count_lines(s, spec_skip_line(s, i))
    }
}

#[via_fn]
proof fn spec_count_lines_decreases(s: Seq<u8>, i: int) {
    if 0 <= i < s.len() {
        lemma_line_end_bounds(s, i);
    }
}

/// Counts the lines that hold a colon, the shape of a connection or socket
/// record in the kernel's connection tables.
pub fn count_colon_lines(s: &[u8]) -> (r: usize)
    ensures
        r as nat == spec_count_colon_lines(s@, 0),
{
    let mut count: usize = 0;
    let mut i: usize = 0;
    while i < s.len()
        invariant
            i <= s@.len(),
            count <= i,
            spec_count_colon_lines(s@, 0) == count + spec_count_colon_lines(s@, i as int),
        decreases s@.len() - i,
    {
        let e = line_end(s, i);
        if line_has_colon(s, i, e) {
            count = count.saturating_add(1);
        }
        i = skip_line(s, i);
    }
    count
}

/// Counts all lines; the connection-tracking table has no header and one
/// line per tracked flow.
pub fn count_lines(s: &[u8]) -> (r: usize)
    ensures
        r as nat == spec_count_lines(s@, 0),
{
    let mut count: usize = 0;
    let mut i: usize = 0;
    while i < s.len()
        invariant
            i <= s@.len(),
            count <= i,
            spec_count_lines(s@, 0) == count + spec_count_lines(s@, i as int),
        decreases s@.len() - i,
    {
        count = count.saturating_add(1);
        i = skip_line(s, i);
    }
    count
}

/// The half-open range of the next whitespace-delimited token in
/// `s[i..end)`, or nothing when only whitespace remains.
pub open spec fn spec_next_token(s: Seq<u8>, i: int, end: int) -> Option<(int, int)> {
    let a = spec_skip_ws(s, i, end);
    if a >= end {
        None
    } else {
        Some((a, spec_token_end(s, a, end)))
    }
}

pub fn next_token(s: &[u8], i: usize, end: usize) -> (r: Option<(usize, usize)>)
    requires
        i <= end <= s@.len(),
    ensures
        match r {
            None => spec_next_token(s@, i as int, end as int) is None,
            Some(t) => {
                &&& spec_next_token(s@, i as int, end as int) == Some((t.0 as int, t.1 as int))
                &&& i <= t.0 < t.1 <= end
            },
        },
{
    let a = skip_ws(s, i, end);
    if a >= end {
        None
    } else {
        let b = token_end(s, a, end);
        proof {
            lemma_skip_ws_bounds(s@, i as int, end as int);
            lemma_token_end_bounds(s@, a as int, end as int);
        }
        Some((a, b))
    }
}

/// Numeric value of the decimal digits `s[a..b)`, most significant first.
pub open spec fn spec_digits_val(s: Seq<u8>, a: int, b: int) -> nat
    decreases b - a,
{
    if a >= b {
        0
    } else {
        spec_digits_val(s, a, b - 1) * 10 + (s[b - 1] - 48) as nat
    }
}

pub open spec fn all_digits(s: Seq<u8>, a: int, b: int) -> bool {
    forall|j: int| a <= j < b ==> is_digit(#[trigger] s[j])
}

/// What `u64::from_str` accepts on `s[a..b)`: an optional leading `+`,
/// then at least one decimal digit, with the value fitting in 64 bits.
pub open spec fn spec_parse_u64(s: Seq<u8>, a: int, b: int) -> Option<u64> {
    let a2 = if a < b && s[a] == 43 {
        a + 1
    } else {
        a
    };
    if a2 < b && all_digits(s, a2, b) && spec_digits_val(s, a2, b) <= u64::MAX {
        Some(spec_digits_val(s, a2, b) as u64)
    } else {
        None
    }
}

proof fn lemma_digits_val_monotonic(s: Seq<u8>, a: int, m: int, b: int)
    requires
        a <= m <= b,
    ensures
        spec_digits_val(s, a, m) <= spec_digits_val(s, a, b),
    decreases b - m,
{
    if m < b {
        lemma_digits_val_monotonic(s, a, m, b - 1);
    }
}

pub fn parse_u64(s: &[u8], a: usize, b: usize) -> (r: Option<u64>)
    requires
        a <= b <= s@.len(),
    ensures
        r == spec_parse_u64(s@, a as int, b as int),
{
    let mut i = a;
    if i < b && s[i] == 43 {
        i = i + 1;
    }
    let start: usize = i;
    if start == b {
        return None;
    }
    let mut val: u64 = 0;
    while i < b
        invariant
            start <= i <= b <= s@.len(),
            start < b,
            all_digits(s@, start as int, i as int),
            val == spec_digits_val(s@, start as int, i as int),
            spec_parse_u64(s@, a as int, b as int) == (if all_digits(s@, start as int, b as int)
                && spec_digits_val(s@, start as int, b as int) <= u64::MAX {
                Some(spec_digits_val(s@, start as int, b as int) as u64)
            } else {
                None::<u64>
            }),
        decreases b - i,
    {
        let c = s[i];
        if c < 48 || c > 57 {
            assert(!all_digits(s@, start as int, b as int)) by {
                assert(!is_digit(s@[i as int]));
            }
            return None;
        }
        let d = (c - 48) as u64;
        if val > (u64::MAX - d) / 10 {
            proof {
                let m = (u64::MAX - d) as int;
                assert(val * 10 + d > u64::MAX) by {
                    assert(val >= m / 10 + 1);
                    assert((m / 10 + 1) * 10 == (m / 10) * 10 + 10);
                    assert((m / 10) * 10 + m % 10 == m) by {
                        vstd::arithmetic::div_mod::lemma_fundamental_div_mod(m, 10);
                    }
                    assert(val * 10 >= (m / 10 + 1) * 10) by (nonlinear_arith)
                        requires
                            val >= m / 10 + 1,
                    ;
                }
                assert(spec_digits_val(s@, start as int, i + 1) == val * 10 + d);
                lemma_digits_val_monotonic(s@, start as int, i + 1, b as int);
            }
            return None;
        }
        proof {
            let m = (u64::MAX - d) as int;
            assert(val * 10 <= (m / 10) * 10) by (nonlinear_arith)
                requires
                    val <= m / 10,
            ;
            assert((m / 10) * 10 <= m) by {
                vstd::arithmetic::div_mod::lemma_fundamental_div_mod(m, 10);
            }
            assert(spec_digits_val(s@, start as int, i + 1) == val * 10 + d);
        }
        val = val * 10 + d;
        i = i + 1;
    }
    Some(val)
}

/// Position after the consumed token, and the parsed value; a missing token
/// and a malformed token both fail.
pub open spec fn spec_next(s: Seq<u8>, i: int, end: int) -> (int, Result<u64, Error>) {
    match spec_next_token(s, i, end) {
        None => (end, Err(Error::MissingField)),
        Some((a, b)) => match spec_parse_u64(s, a, b) {
            Some(v) => (b, Ok(v)),
            None => (b, Err(Error::MalformedInteger)),
        },
    }
}

/// Position after the consumed token, and the parsed value; a missing token
/// fails, but a malformed token degrades to 0.
pub open spec fn spec_next_or_zero(s: Seq<u8>, i: int, end: int) -> (int, Result<u64, Error>) {
    match spec_next_token(s, i, end) {
        None => (end, Err(Error::MissingField)),
        Some((a, b)) => match spec_parse_u64(s, a, b) {
            Some(v) => (b, Ok(v)),
            None => (b, Ok(0)),
        },
    }
}

/// Parses the next `u64` token in `s[i..end)`.  Fails with `MissingField`
/// if no token remains, with `MalformedInteger` if the token does not parse.
pub fn next(s: &[u8], i: usize, end: usize) -> (r: (usize, Result<u64, Error>))
    requires
        i <= end <= s@.len(),
    ensures
        (r.0 as int, r.1) == spec_next(s@, i as int, end as int),
        i <= r.0 <= end,
{
    match next_token(s, i, end) {
        None => (end, Err(Error::MissingField)),
        Some((a, b)) => match parse_u64(s, a, b) {
            Some(v) => (b, Ok(v)),
            None => (b, Err(Error::MalformedInteger)),
        },
    }
}

/// Parses the next `u64` token in `s[i..end)`.  Fails with `MissingField`
/// if no token remains, and yields 0 for a token that does not parse:
/// newer optional fields degrade gracefully, but a wholly absent column
/// signals a format change and must fail.
pub fn next_or_zero(s: &[u8], i: usize, end: usize) -> (r: (usize, Result<u64, Error>))
    requires
        i <= end <= s@.len(),
    ensures
        (r.0 as int, r.1) == spec_next_or_zero(s@, i as int, end as int),
        i <= r.0 <= end,
{
    match next_token(s, i, end) {
        None => (end, Err(Error::MissingField)),
        Some((a, b)) => match parse_u64(s, a, b) {
            Some(v) => (b, Ok(v)),
            None => (b, Ok(0)),
        },
    }
}

} // verus!
