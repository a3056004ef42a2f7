//! The progress parser: turns one line of the external tool's textual
//! output into a structured progress sample.
//!
//! A line yields a sample only if it contains a percentage token:
//! digits, an optional decimal point with further digits, immediately
//! followed by `%`. The other fields are extracted independently and
//! default to zero or `None` when their pattern is absent:
//!
//! - a total size: `of`, whitespace, an optional `~`, a number and a
//!   unit (`KiB`, `MiB` and `GiB` scale by powers of 1024);
//! - a transfer speed: `at`, whitespace, a number and a unit,
//!   immediately followed by `/s`;
//! - an ETA: `ETA`, whitespace, then `MM:SS` or `H:MM:SS`.
//!
//! Numbers are read to a precision of hundredths (further decimals are
//! dropped) and saturate at `u64::MAX`. Parsing is pure: the same line
//! always yields the same sample.

use vstd::prelude::*;

verus! {

/// One structured snapshot decoded from one line of tool output.
/// Fractional quantities are held in hundredths: `percent_hundredths`
/// is 4520 for 45.2%.
#[derive(Debug, Clone, PartialEq, Eq)]
pub struct ProgressSample {
    /// Completion percentage, in hundredths of a percent.
    pub percent_hundredths: u64,
    /// Bytes downloaded so far, derived from the total and the percentage.
    pub downloaded_bytes: u64,
    /// Total size of the download in bytes, 0 when the line names none.
    pub total_bytes: u64,
    /// Transfer speed in bytes per second, 0 when the line names none.
    pub speed_bytes_per_sec: u64,
    /// Estimated seconds to completion, when the line names one.
    pub eta_seconds: Option<u64>,
}

// ---------------------------------------------------------------------------
// Byte classes
// ---------------------------------------------------------------------------
/// An ASCII decimal digit.
pub open spec fn is_digit(b: u8) -> bool {
    0x30 <= b <= 0x39
}

/// The numeric value of a digit byte; non-digits count as zero.
pub open spec fn digit_val(b: u8) -> int {
    if is_digit(b) {
        b - 0x30
    } else {
        0
    }
}

/// ASCII whitespace: space, tab, line feed, vertical tab, form feed,
/// carriage return.
pub open spec fn is_space(b: u8) -> bool {
    b == 0x20 || b == 0x09 || b == 0x0a || b == 0x0b || b == 0x0c || b == 0x0d
}

/// An ASCII word byte: a letter, a digit or an underscore.
pub open spec fn is_word(b: u8) -> bool {
    is_digit(b) || (0x41 <= b <= 0x5a) || (0x61 <= b <= 0x7a) || b == 0x5f
}

/// A byte that may appear in a number token: a digit or a dot.
pub open spec fn is_numdot(b: u8) -> bool {
    is_digit(b) || b == 0x2e
}

/// A byte that may appear in a clock token: a digit or a colon.
pub open spec fn is_digcolon(b: u8) -> bool {
    is_digit(b) || b == 0x3a
}

// ---------------------------------------------------------------------------
// Runs of bytes
// ---------------------------------------------------------------------------
/// The start of the maximal run of digits ending just before `end`.
pub open spec fn digit_run_start(s: Seq<u8>, end: int) -> int
    decreases end,
{
    if 0 < end <= s.len() && is_digit(s[end - 1]) {
        digit_run_start(s, end - 1)
    } else {
        end
    }
}

/// The end of the maximal run of whitespace starting at `i`.
pub open spec fn space_run_end(s: Seq<u8>, i: int) -> int
    decreases s.len() - i,
{
    if 0 <= i < s.len() && is_space(s[i]) {
        space_run_end(s, i + 1)
    } else {
        i
    }
}

/// The end of the maximal run of number bytes starting at `i`.
pub open spec fn numdot_run_end(s: Seq<u8>, i: int) -> int
    decreases s.len() - i,
{
    if 0 <= i < s.len() && is_numdot(s[i]) {
        numdot_run_end(s, i + 1)
    } else {
        i
    }
}

/// The end of the maximal run of word bytes starting at `i`.
pub open spec fn word_run_end(s: Seq<u8>, i: int) -> int
    decreases s.len() - i,
{
    if 0 <= i < s.len() && is_word(s[i]) {
        word_run_end(s, i + 1)
    } else {
        i
    }
}

/// The end of the maximal run of clock bytes starting at `i`.
pub open spec fn digcolon_run_end(s: Seq<u8>, i: int) -> int
    decreases s.len() - i,
{
    if 0 <= i < s.len() && is_digcolon(s[i]) {
        digcolon_run_end(s, i + 1)
    } else {
        i
    }
}

// ---------------------------------------------------------------------------
// Number values
// ---------------------------------------------------------------------------
/// One step of decimal accumulation, saturating at `u64::MAX`.
pub open spec fn sat10(a: nat, d: int) -> nat {
    if a * 10 + d > u64::MAX {
        u64::MAX as nat
    } else {
        (a * 10 + d) as nat
    }
}

/// The decimal value of `s[i..j)`, saturating at `u64::MAX`.
/// Non-digit bytes count as zero digits.
pub open spec fn sat_digits_val(s: Seq<u8>, i: int, j: int) -> nat
    decreases j - i,
{
    if i < j {
        sat10(sat_digits_val(s, i, j - 1), digit_val(s[j - 1]))
    } else {
        0
    }
}

/// `a * 100`, saturating at `u64::MAX`.
pub open spec fn sat_mul100(a: nat) -> nat {
    if a * 100 > u64::MAX {
        u64::MAX as nat
    } else {
        (a * 100) as nat
    }
}

/// `a + b`, saturating at `u64::MAX`.
pub open spec fn sat_plus(a: nat, b: nat) -> nat {
    if a + b > u64::MAX {
        u64::MAX as nat
    } else {
        a + b
    }
}

/// `x` clamped to `u64::MAX`.
pub open spec fn sat_u64(x: int) -> nat {
    if x > u64::MAX {
        u64::MAX as nat
    } else if x < 0 {
        0
    } else {
        x as nat
    }
}

/// The position of the first `b` in `s[i..j)`, if any.
pub open spec fn byte_pos(s: Seq<u8>, i: int, j: int, b: u8) -> Option<int>
    decreases j - i,
{
    if i >= j {
        None
    } else if s[i] == b {
        Some(i)
    } else {
        byte_pos(s, i + 1, j, b)
    }
}

/// The value of the first two fractional digits of `s[i..j)`, in
/// hundredths: further digits are dropped.
pub open spec fn frac2_val(s: Seq<u8>, i: int, j: int) -> int {
    if j <= i {
        0
    } else if j == i + 1 {
        digit_val(s[i]) * 10
    } else {
        digit_val(s[i]) * 10 + digit_val(s[i + 1])
    }
}

/// The value of the number token `s[i..j)` in hundredths: the whole
/// part times 100 plus its first two decimals, saturating at
/// `u64::MAX`.
pub open spec fn number_hundredths(s: Seq<u8>, i: int, j: int) -> nat {
    match byte_pos(s, i, j, 0x2e) {
        Option::None => sat_mul100(sat_digits_val(s, i, j)),
        Option::Some(d) => sat_plus(sat_mul100(sat_digits_val(s, i, d)), frac2_val(s, d + 1, j) as nat),
    }
}

/// Whether `s[k]` differs from `b` everywhere in `[i, j)`.
pub open spec fn no_byte_in(s: Seq<u8>, i: int, j: int, b: u8) -> bool {
    forall|k: int| i <= k < j ==> s[k] != b
}

/// Whether some digit occurs in `[i, j)`.
pub open spec fn has_digit(s: Seq<u8>, i: int, j: int) -> bool {
    exists|k: int| i <= k < j && is_digit(s[k])
}

/// Whether `s[i..j)` is a readable number: at least one digit, and at
/// most one dot.
pub open spec fn number_valid(s: Seq<u8>, i: int, j: int) -> bool {
    has_digit(s, i, j) && match byte_pos(s, i, j, 0x2e) {
        Option::None => true,
        Option::Some(d) => no_byte_in(s, d + 1, j, 0x2e),
    }
}

// ---------------------------------------------------------------------------
// The percentage token
// ---------------------------------------------------------------------------
/// Whether a percentage token ends at position `p`: `s[p]` is `%` and a
/// number (digits, or digits with a decimal point) stands right before.
pub open spec fn percent_valid_at(s: Seq<u8>, p: int) -> bool {
    &&& 0 <= p < s.len()
    &&& s[p] == 0x25
    &&& {
        let f0 = digit_run_start(s, p);
        ||| f0 < p
        ||| (f0 > 0 && s[f0 - 1] == 0x2e && digit_run_start(s, f0 - 1) < f0 - 1)
    }
}

/// The start of the percentage token that ends at `p`: the fractional
/// digits extended over one dot and the whole digits before it.
pub open spec fn percent_token_start(s: Seq<u8>, p: int) -> int {
    let f0 = digit_run_start(s, p);
    if f0 > 0 && s[f0 - 1] == 0x2e {
        let i0 = digit_run_start(s, f0 - 1);
        if i0 < f0 - 1 {
            i0
        } else {
            f0
        }
    } else {
        f0
    }
}

/// The first position where a percentage token ends, scanning from `i`.
pub open spec fn first_percent_from(s: Seq<u8>, i: int) -> Option<int>
    decreases s.len() - i,
{
    if i >= s.len() {
        None
    } else if percent_valid_at(s, i) {
        Some(i)
    } else {
        first_percent_from(s, i + 1)
    }
}

/// The percentage carried by the line, in hundredths of a percent.
pub open spec fn spec_percent(s: Seq<u8>) -> Option<nat> {
    match first_percent_from(s, 0) {
        Option::None => None,
        Option::Some(p) => Some(number_hundredths(s, percent_token_start(s, p), p)),
    }
}

// ---------------------------------------------------------------------------
// The size, speed and ETA fields
// ---------------------------------------------------------------------------
/// The byte-count multiplier for a unit name: binary prefixes scale by
/// powers of 1024; any other unit counts bytes.
pub open spec fn unit_multiplier(s: Seq<u8>, i: int, j: int) -> nat {
    if j == i + 3 && s[i] == 0x4b && s[i + 1] == 0x69 && s[i + 2] == 0x42 {
        0x400  // KiB
    } else if j == i + 3 && s[i] == 0x4d && s[i + 1] == 0x69 && s[i + 2] == 0x42 {
        0x10_0000  // MiB
    } else if j == i + 3 && s[i] == 0x47 && s[i + 1] == 0x69 && s[i + 2] == 0x42 {
        0x4000_0000  // GiB
    } else {
        1
    }
}

/// Whether a size pattern starts at `i`: `of`, whitespace, an optional
/// `~` with more whitespace, then a number token.
pub open spec fn of_match_at(s: Seq<u8>, i: int) -> bool {
    &&& 0 <= i && i + 1 < s.len()
    &&& s[i] == 0x6f && s[i + 1] == 0x66
    &&& {
        let a = space_run_end(s, i + 2);
        &&& a > i + 2
        &&& {
            let c = if a < s.len() && s[a] == 0x7e {
                space_run_end(s, a + 1)
            } else {
                a
            };
            numdot_run_end(s, c) > c
        }
    }
}

/// Where the number of the size pattern at `i` starts.
pub open spec fn of_number_start(s: Seq<u8>, i: int) -> int {
    let a = space_run_end(s, i + 2);
    if a < s.len() && s[a] == 0x7e {
        space_run_end(s, a + 1)
    } else {
        a
    }
}

/// The first position where a size pattern starts, scanning from `i`.
pub open spec fn first_of_from(s: Seq<u8>, i: int) -> Option<int>
    decreases s.len() - i,
{
    if i >= s.len() {
        None
    } else if of_match_at(s, i) {
        Some(i)
    } else {
        first_of_from(s, i + 1)
    }
}

/// The total size in bytes carried by the line, 0 when absent or
/// unreadable.
pub open spec fn spec_total_bytes(s: Seq<u8>) -> nat {
    match first_of_from(s, 0) {
        Option::None => 0,
        Option::Some(i) => {
            let c = of_number_start(s, i);
            let n1 = numdot_run_end(s, c);
            if number_valid(s, c, n1) {
                let h = number_hundredths(s, c, n1);
                let mult = unit_multiplier(s, n1, word_run_end(s, n1));
                sat_u64((h * mult) as int / 100)
            } else {
                0
            }
        },
    }
}

/// Whether a speed pattern starts at `i`: `at`, whitespace, a number, a
/// nonempty unit, then `/s`.
pub open spec fn at_match_at(s: Seq<u8>, i: int) -> bool {
    &&& 0 <= i && i + 1 < s.len()
    &&& s[i] == 0x61 && s[i + 1] == 0x74
    &&& {
        let a = space_run_end(s, i + 2);
        &&& a > i + 2
        &&& {
            let n1 = numdot_run_end(s, a);
            &&& n1 > a
            &&& {
                let w1 = word_run_end(s, n1);
                &&& w1 > n1
                &&& w1 + 1 < s.len()
                &&& s[w1] == 0x2f
                &&& s[w1 + 1] == 0x73
            }
        }
    }
}

/// The first position where a speed pattern starts, scanning from `i`.
pub open spec fn first_at_from(s: Seq<u8>, i: int) -> Option<int>
    decreases s.len() - i,
{
    if i >= s.len() {
        None
    } else if at_match_at(s, i) {
        Some(i)
    } else {
        first_at_from(s, i + 1)
    }
}

/// The transfer speed in bytes per second carried by the line, 0 when
/// absent or unreadable.
pub open spec fn spec_speed(s: Seq<u8>) -> nat {
    match first_at_from(s, 0) {
        Option::None => 0,
        Option::Some(i) => {
            let a = space_run_end(s, i + 2);
            let n1 = numdot_run_end(s, a);
            if number_valid(s, a, n1) {
                let h = number_hundredths(s, a, n1);
                let mult = unit_multiplier(s, n1, word_run_end(s, n1));
                sat_u64((h * mult) as int / 100)
            } else {
                0
            }
        },
    }
}

/// The exact decimal value of the digits `s[i..j)`.
pub open spec fn digits_val(s: Seq<u8>, i: int, j: int) -> int
    decreases j - i,
{
    if i < j {
        digits_val(s, i, j - 1) * 10 + digit_val(s[j - 1])
    } else {
        0
    }
}

/// A clock part is readable when it is 1 to 10 digits long.
pub open spec fn clock_part_valid(i: int, j: int) -> bool {
    0 < j - i <= 10
}

/// The seconds named by the clock token `s[i..j)`: `MM:SS` with one
/// colon, `H:MM:SS` with two, nothing otherwise.
pub open spec fn eta_from_token(s: Seq<u8>, i: int, j: int) -> Option<int> {
    match byte_pos(s, i, j, 0x3a) {
        Option::None => None,
        Option::Some(p1) => match byte_pos(s, p1 + 1, j, 0x3a) {
            Option::None => {
                if clock_part_valid(i, p1) && clock_part_valid(p1 + 1, j) {
                    Some(digits_val(s, i, p1) * 60 + digits_val(s, p1 + 1, j))
                } else {
                    None
                }
            },
            Option::Some(p2) => match byte_pos(s, p2 + 1, j, 0x3a) {
                Option::None => {
                    if clock_part_valid(i, p1) && clock_part_valid(p1 + 1, p2)
                        && clock_part_valid(p2 + 1, j) {
                        Some(
                            digits_val(s, i, p1) * 3600 + digits_val(s, p1 + 1, p2) * 60
                                + digits_val(s, p2 + 1, j),
                        )
                    } else {
                        None
                    }
                },
                Option::Some(_) => None,
            },
        },
    }
}

/// Whether an ETA pattern starts at `i`: `ETA`, whitespace, then a run
/// of digits and colons.
pub open spec fn eta_match_at(s: Seq<u8>, i: int) -> bool {
    &&& 0 <= i && i + 2 < s.len()
    &&& s[i] == 0x45 && s[i + 1] == 0x54 && s[i + 2] == 0x41
    &&& {
        let a = space_run_end(s, i + 3);
        &&& a > i + 3
        &&& digcolon_run_end(s, a) > a
    }
}

/// The first position where an ETA pattern starts, scanning from `i`.
pub open spec fn first_eta_from(s: Seq<u8>, i: int) -> Option<int>
    decreases s.len() - i,
{
    if i >= s.len() {
        None
    } else if eta_match_at(s, i) {
        Some(i)
    } else {
        first_eta_from(s, i + 1)
    }
}

/// The ETA in seconds carried by the line, if any.
pub open spec fn spec_eta(s: Seq<u8>) -> Option<int> {
    match first_eta_from(s, 0) {
        Option::None => None,
        Option::Some(i) => {
            let a = space_run_end(s, i + 3);
            eta_from_token(s, a, digcolon_run_end(s, a))
        },
    }
}

// ---------------------------------------------------------------------------
// The whole line
// ---------------------------------------------------------------------------
/// What `parse_progress_line` returns: a sample exactly when the line
/// holds a percentage token, with the other fields read independently.
pub open spec fn spec_parse_progress_line(s: Seq<u8>) -> Option<ProgressSample> {
    match spec_percent(s) {
        Option::None => None,
        Option::Some(ph) => {
            let total = spec_total_bytes(s);
            Some(
                ProgressSample {
                    percent_hundredths: ph as u64,
                    downloaded_bytes: sat_u64((total * ph) as int / 10000) as u64,
                    total_bytes: total as u64,
                    speed_bytes_per_sec: spec_speed(s) as u64,
                    eta_seconds: match spec_eta(s) {
                        Option::None => None,
                        Option::Some(e) => Some(e as u64),
                    },
                },
            )
        },
    }
}

// ---------------------------------------------------------------------------
// Executable scanning helpers
// ---------------------------------------------------------------------------
fn byte_is_space(b: u8) -> (r: bool)
    ensures
        r == is_space(b),
{
    b == 0x20 || b == 0x09 || b == 0x0a || b == 0x0b || b == 0x0c || b == 0x0d
}

fn byte_is_digit(b: u8) -> (r: bool)
    ensures
        r == is_digit(b),
{
    0x30 <= b && b <= 0x39
}

fn byte_is_word(b: u8) -> (r: bool)
    ensures
        r == is_word(b),
{
    (0x30 <= b && b <= 0x39) || (0x41 <= b && b <= 0x5a) || (0x61 <= b && b <= 0x7a) || b == 0x5f
}

fn byte_is_numdot(b: u8) -> (r: bool)
    ensures
        r == is_numdot(b),
{
    (0x30 <= b && b <= 0x39) || b == 0x2e
}

fn byte_is_digcolon(b: u8) -> (r: bool)
    ensures
        r == is_digcolon(b),
{
    (0x30 <= b && b <= 0x39) || b == 0x3a
}

fn digit_run_start_exec(line: &[u8], end: usize) -> (r: usize)
    requires
        end <= line.len(),
    ensures
        r as int == digit_run_start(line@, end as int),
        r <= end,
{
    let mut j = end;
    while j > 0 && byte_is_digit(line[j - 1])
        invariant
            j <= end <= line.len(),
            digit_run_start(line@, end as int) == digit_run_start(line@, j as int),
        decreases j,
    {
        j = j - 1;
    }
    j
}

fn space_run_end_exec(line: &[u8], i: usize) -> (r: usize)
    requires
        i <= line.len(),
    ensures
        r as int == space_run_end(line@, i as int),
        i <= r <= line.len(),
{
    let mut j = i;
    while j < line.len() && byte_is_space(line[j])
        invariant
            i <= j <= line.len(),
            space_run_end(line@, i as int) == space_run_end(line@, j as int),
        decreases line.len() - j,
    {
        j = j + 1;
    }
    j
}

fn numdot_run_end_exec(line: &[u8], i: usize) -> (r: usize)
    requires
        i <= line.len(),
    ensures
        r as int == numdot_run_end(line@, i as int),
        i <= r <= line.len(),
{
    let mut j = i;
    while j < line.len() && byte_is_numdot(line[j])
        invariant
            i <= j <= line.len(),
            numdot_run_end(line@, i as int) == numdot_run_end(line@, j as int),
        decreases line.len() - j,
    {
        j = j + 1;
    }
    j
}

fn word_run_end_exec(line: &[u8], i: usize) -> (r: usize)
    requires
        i <= line.len(),
    ensures
        r as int == word_run_end(line@, i as int),
        i <= r <= line.len(),
{
    let mut j = i;
    while j < line.len() && byte_is_word(line[j])
        invariant
            i <= j <= line.len(),
            word_run_end(line@, i as int) == word_run_end(line@, j as int),
        decreases line.len() - j,
    {
        j = j + 1;
    }
    j
}

fn digcolon_run_end_exec(line: &[u8], i: usize) -> (r: usize)
    requires
        i <= line.len(),
    ensures
        r as int == digcolon_run_end(line@, i as int),
        i <= r <= line.len(),
{
    let mut j = i;
    while j < line.len() && byte_is_digcolon(line[j])
        invariant
            i <= j <= line.len(),
            digcolon_run_end(line@, i as int) == digcolon_run_end(line@, j as int),
        decreases line.len() - j,
    {
        j = j + 1;
    }
    j
}

fn find_byte_exec(line: &[u8], i: usize, j: usize, b: u8) -> (r: Option<usize>)
    requires
        i <= j <= line.len(),
    ensures
        match r {
            Option::Some(p) => i <= p < j && byte_pos(line@, i as int, j as int, b) == Some(
                p as int,
            ),
            Option::None => byte_pos(line@, i as int, j as int, b) is None,
        },
{
    let mut k = i;
    while k < j
        invariant
            i <= k <= j <= line.len(),
            byte_pos(line@, i as int, j as int, b) == byte_pos(line@, k as int, j as int, b),
        decreases j - k,
    {
        if line[k] == b {
            return Some(k);
        }
        k = k + 1;
    }
    None
}

// ---------------------------------------------------------------------------
// Executable number readers
// ---------------------------------------------------------------------------
fn parse_sat_digits(line: &[u8], i: usize, j: usize) -> (r: u64)
    requires
        i <= j <= line.len(),
    ensures
        r as nat == sat_digits_val(line@, i as int, j as int),
{
    let mut acc: u64 = 0;
    let mut k = i;
    while k < j
        invariant
            i <= k <= j <= line.len(),
            acc as nat == sat_digits_val(line@, i as int, k as int),
        decreases j - k,
    {
        let b = line[k];
        let d: u64 = if 0x30 <= b && b <= 0x39 {
            (b - 0x30) as u64
        } else {
            0
        };
        acc = match acc.checked_mul(10) {
            Option::Some(x) => match x.checked_add(d) {
                Option::Some(y) => y,
                Option::None => u64::MAX,
            },
            Option::None => u64::MAX,
        };
        k = k + 1;
    }
    acc
}

fn sat_mul100_exec(a: u64) -> (r: u64)
    ensures
        r as nat == sat_mul100(a as nat),
{
    match a.checked_mul(100) {
        Option::Some(x) => x,
        Option::None => u64::MAX,
    }
}

fn frac2_exec(line: &[u8], i: usize, j: usize) -> (r: u64)
    requires
        j <= line.len(),
    ensures
        r as int == frac2_val(line@, i as int, j as int),
{
    if j <= i {
        0
    } else {
        let d0: u64 = if 0x30 <= line[i] && line[i] <= 0x39 {
            (line[i] - 0x30) as u64
        } else {
            0
        };
        if j == i + 1 {
            d0 * 10
        } else {
            let d1: u64 = if 0x30 <= line[i + 1] && line[i + 1] <= 0x39 {
                (line[i + 1] - 0x30) as u64
            } else {
                0
            };
            d0 * 10 + d1
        }
    }
}

fn number_hundredths_exec(line: &[u8], i: usize, j: usize) -> (r: u64)
    requires
        i <= j <= line.len(),
    ensures
        r as nat == number_hundredths(line@, i as int, j as int),
{
    match find_byte_exec(line, i, j, 0x2e) {
        Option::None => sat_mul100_exec(parse_sat_digits(line, i, j)),
        Option::Some(p) => {
            let w = sat_mul100_exec(parse_sat_digits(line, i, p));
            let f = frac2_exec(line, p + 1, j);
            match w.checked_add(f) {
                Option::Some(y) => y,
                Option::None => u64::MAX,
            }
        },
    }
}

fn number_valid_exec(line: &[u8], i: usize, j: usize) -> (r: bool)
    requires
        i <= j <= line.len(),
    ensures
        r == number_valid(line@, i as int, j as int),
{
    let mut hd = false;
    let mut k = i;
    while k < j
        invariant
            i <= k <= j <= line.len(),
            hd == has_digit(line@, i as int, k as int),
        decreases j - k,
    {
        if byte_is_digit(line[k]) {
            hd = true;
        }
        k = k + 1;
    }
    if !hd {
        return false;
    }
    match find_byte_exec(line, i, j, 0x2e) {
        Option::None => true,
        Option::Some(d) => {
            let mut m = d + 1;
            while m < j
                invariant
                    i <= d < j,
                    d < m <= j <= line.len(),
                    has_digit(line@, i as int, j as int),
                    byte_pos(line@, i as int, j as int, 0x2e) == Some(d as int),
                    no_byte_in(line@, d + 1, m as int, 0x2e),
                decreases j - m,
            {
                if line[m] == 0x2e {
                    assert(!no_byte_in(line@, d + 1, j as int, 0x2e)) by {
                        assert(line@[m as int] == 0x2e);
                    }
                    return false;
                }
                m = m + 1;
            }
            true
        },
    }
}

fn mul_div_sat(h: u64, mult: u64, den: u64) -> (r: u64)
    requires
        den > 0,
    ensures
        r as nat == sat_u64((h as nat * mult as nat) as int / den as int),
{
    assert((h as int) * (mult as int) <= u128::MAX) by (nonlinear_arith)
        requires
            h <= u64::MAX,
            mult <= u64::MAX,
    ;
    let prod: u128 = (h as u128) * (mult as u128);
    let q = prod / (den as u128);
    if q > u64::MAX as u128 {
        u64::MAX
    } else {
        q as u64
    }
}

// ---------------------------------------------------------------------------
// Executable field extraction
// ---------------------------------------------------------------------------
fn find_percent_value(line: &[u8]) -> (r: Option<u64>)
    ensures
        match r {
            Option::Some(v) => spec_percent(line@) == Some(v as nat),
            Option::None => spec_percent(line@) is None,
        },
{
    let mut p: usize = 0;
    while p < line.len()
        invariant
            p <= line.len(),
            first_percent_from(line@, 0) == first_percent_from(line@, p as int),
        decreases line.len() - p,
    {
        if line[p] == 0x25 {
            let f0 = digit_run_start_exec(line, p);
            let mut valid = f0 < p;
            if !valid && f0 > 0 && line[f0 - 1] == 0x2e {
                let i0 = digit_run_start_exec(line, f0 - 1);
                if i0 < f0 - 1 {
                    valid = true;
                }
            }
            if valid {
                let start = if f0 > 0 && line[f0 - 1] == 0x2e {
                    let i0 = digit_run_start_exec(line, f0 - 1);
                    if i0 < f0 - 1 {
                        i0
                    } else {
                        f0
                    }
                } else {
                    f0
                };
                assert(percent_valid_at(line@, p as int));
                assert(start as int == percent_token_start(line@, p as int));
                let v = number_hundredths_exec(line, start, p);
                return Some(v);
            }
            assert(!percent_valid_at(line@, p as int));
        }
        p = p + 1;
    }
    None
}

fn find_total_bytes(line: &[u8]) -> (r: u64)
    ensures
        r as nat == spec_total_bytes(line@),
{
    let mut i: usize = 0;
    while i < line.len()
        invariant
            i <= line.len(),
            first_of_from(line@, 0) == first_of_from(line@, i as int),
        decreases line.len() - i,
    {
        if i + 1 < line.len() && line[i] == 0x6f && line[i + 1] == 0x66 {
            let a = space_run_end_exec(line, i + 2);
            if a > i + 2 {
                let c = if a < line.len() && line[a] == 0x7e {
                    space_run_end_exec(line, a + 1)
                } else {
                    a
                };
                let n1 = numdot_run_end_exec(line, c);
                if n1 > c {
                    assert(of_match_at(line@, i as int));
                    if number_valid_exec(line, c, n1) {
                        let h = number_hundredths_exec(line, c, n1);
                        let w1 = word_run_end_exec(line, n1);
                        let mult = unit_multiplier_exec(line, n1, w1);
                        return mul_div_sat(h, mult, 100);
                    } else {
                        return 0;
                    }
                }
            }
        }
        assert(!of_match_at(line@, i as int));
        i = i + 1;
    }
    0
}

fn unit_multiplier_exec(line: &[u8], i: usize, j: usize) -> (r: u64)
    requires
        i <= j <= line.len(),
    ensures
        r as nat == unit_multiplier(line@, i as int, j as int),
{
    if j - i == 3 && line[i + 1] == 0x69 && line[i + 2] == 0x42 {
        if line[i] == 0x4b {
            0x400
        } else if line[i] == 0x4d {
            0x10_0000
        } else if line[i] == 0x47 {
            0x4000_0000
        } else {
            1
        }
    } else {
        1
    }
}

fn find_speed(line: &[u8]) -> (r: u64)
    ensures
        r as nat == spec_speed(line@),
{
    let mut i: usize = 0;
    while i < line.len()
        invariant
            i <= line.len(),
            first_at_from(line@, 0) == first_at_from(line@, i as int),
        decreases line.len() - i,
    {
        if i + 1 < line.len() && line[i] == 0x61 && line[i + 1] == 0x74 {
            let a = space_run_end_exec(line, i + 2);
            if a > i + 2 {
                let n1 = numdot_run_end_exec(line, a);
                if n1 > a {
                    let w1 = word_run_end_exec(line, n1);
                    if w1 > n1 && w1 < line.len() && line[w1] == 0x2f && w1 + 1 < line.len()
                        && line[w1 + 1] == 0x73 {
                        assert(at_match_at(line@, i as int));
                        if number_valid_exec(line, a, n1) {
                            let h = number_hundredths_exec(line, a, n1);
                            let mult = unit_multiplier_exec(line, n1, w1);
                            return mul_div_sat(h, mult, 100);
                        } else {
                            return 0;
                        }
                    }
                }
            }
        }
        assert(!at_match_at(line@, i as int));
        i = i + 1;
    }
    0
}

/// `pow10(n)` is 10 raised to `n`.
pub open spec fn pow10(n: nat) -> nat
    decreases n,
{
    if n == 0 {
        1
    } else {
        10 * pow10((n - 1) as nat)
    }
}

proof fn lemma_digits_val_bound(s: Seq<u8>, i: int, j: int)
    requires
        i <= j,
    ensures
        0 <= digits_val(s, i, j) < pow10((j - i) as nat),
    decreases j - i,
{
    if i < j {
        lemma_digits_val_bound(s, i, j - 1);
    }
}

fn parse_digits_exact(line: &[u8], i: usize, j: usize) -> (r: u64)
    requires
        i <= j <= line.len(),
        j - i <= 10,
    ensures
        r as int == digits_val(line@, i as int, j as int),
        r < 10000000000,
{
    proof {
        reveal_with_fuel(pow10, 11);
        lemma_digits_val_bound(line@, i as int, j as int);
    }
    let mut acc: u64 = 0;
    let mut k = i;
    while k < j
        invariant
            i <= k <= j <= line.len(),
            j - i <= 10,
            acc as int == digits_val(line@, i as int, k as int),
            acc < 10000000000,
        decreases j - k,
    {
        proof {
            reveal_with_fuel(pow10, 11);
            lemma_digits_val_bound(line@, i as int, k + 1);
        }
        let b = line[k];
        let d: u64 = if 0x30 <= b && b <= 0x39 {
            (b - 0x30) as u64
        } else {
            0
        };
        acc = acc * 10 + d;
        k = k + 1;
    }
    acc
}

fn eta_token_value(line: &[u8], i: usize, j: usize) -> (r: Option<u64>)
    requires
        i <= j <= line.len(),
    ensures
        match r {
            Option::Some(v) => eta_from_token(line@, i as int, j as int) == Some(v as int),
            Option::None => eta_from_token(line@, i as int, j as int) is None,
        },
{
    let p1 = match find_byte_exec(line, i, j, 0x3a) {
        Option::Some(p) => p,
        Option::None => {
            return None;
        },
    };
    match find_byte_exec(line, p1 + 1, j, 0x3a) {
        Option::None => {
            if 0 < p1 - i && p1 - i <= 10 && 0 < j - (p1 + 1) && j - (p1 + 1) <= 10 {
                let m = parse_digits_exact(line, i, p1);
                let s = parse_digits_exact(line, p1 + 1, j);
                Some(m * 60 + s)
            } else {
                None
            }
        },
        Option::Some(p2) => {
            match find_byte_exec(line, p2 + 1, j, 0x3a) {
                Option::None => {
                    if 0 < p1 - i && p1 - i <= 10 && 0 < p2 - (p1 + 1) && p2 - (p1 + 1) <= 10 && 0
                        < j - (p2 + 1) && j - (p2 + 1) <= 10 {
                        let h = parse_digits_exact(line, i, p1);
                        let m = parse_digits_exact(line, p1 + 1, p2);
                        let s = parse_digits_exact(line, p2 + 1, j);
                        Some(h * 3600 + m * 60 + s)
                    } else {
                        None
                    }
                },
                Option::Some(_) => None,
            }
        },
    }
}

fn find_eta(line: &[u8]) -> (r: Option<u64>)
    ensures
        match r {
            Option::Some(v) => spec_eta(line@) == Some(v as int),
            Option::None => spec_eta(line@) is None,
        },
{
    let mut i: usize = 0;
    while i < line.len()
        invariant
            i <= line.len(),
            first_eta_from(line@, 0) == first_eta_from(line@, i as int),
        decreases line.len() - i,
    {
        if line.len() - i > 2 && line[i] == 0x45 && line[i + 1] == 0x54 && line[i + 2] == 0x41 {
            let a = space_run_end_exec(line, i + 3);
            if a > i + 3 {
                let e1 = digcolon_run_end_exec(line, a);
                if e1 > a {
                    assert(eta_match_at(line@, i as int));
                    return eta_token_value(line, a, e1);
                }
            }
        }
        assert(!eta_match_at(line@, i as int));
        i = i + 1;
    }
    None
}

// ---------------------------------------------------------------------------
// The parser
// ---------------------------------------------------------------------------
/// Parses one line of the external tool's output. Returns a sample
/// exactly when the line carries a percentage token; the size, speed
/// and ETA fields are filled independently and default when absent.
pub fn parse_progress_line(line: &[u8]) -> (r: Option<ProgressSample>)
    ensures
        r == spec_parse_progress_line(line@),
{
    match find_percent_value(line) {
        Option::None => None,
        Option::Some(ph) => {
            let total = find_total_bytes(line);
            let down = mul_div_sat(total, ph, 10000);
            let speed = find_speed(line);
            let eta = find_eta(line);
            Some(
                ProgressSample {
                    percent_hundredths: ph,
                    downloaded_bytes: down,
                    total_bytes: total,
                    speed_bytes_per_sec: speed,
                    eta_seconds: eta,
                },
            )
        },
    }
}

/// A line without a percent sign yields no sample: diagnostic lines
/// are silently discarded.
pub proof fn lemma_line_without_percent_yields_nothing(s: Seq<u8>)
    requires
        forall|k: int| 0 <= k < s.len() ==> s[k] != 0x25u8,
    ensures
        spec_parse_progress_line(s) is None,
{
    lemma_no_valid_percent_from(s, 0);
}

proof fn lemma_no_valid_percent_from(s: Seq<u8>, i: int)
    requires
        0 <= i <= s.len(),
        forall|k: int| 0 <= k < s.len() ==> s[k] != 0x25u8,
    ensures
        first_percent_from(s, i) is None,
    decreases s.len() - i,
{
    if i < s.len() {
        assert(!percent_valid_at(s, i));
        lemma_no_valid_percent_from(s, i + 1);
    }
}

} // verus!
