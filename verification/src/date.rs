//! Date normalization.
//!
//! Records carry their dates as free-form strings.  Two wire patterns are
//! recognized, anywhere inside the string: `YYYY-MM-DD`, and `MM/YYYY`
//! (whose day defaults to 1).  The `YYYY-MM-DD` pattern is preferred; when
//! it occurs, its digits are taken even if they name no real calendar day —
//! that, like any other unrecognized string, is a decode failure rather
//! than a silent fallback.

use vstd::prelude::*;
use vstd::string::StrSliceExecFns;

use crate::error::ZoteroApiError;

verus! {

/// A calendar day extracted from a record's date field.
#[derive(Debug, Clone, Copy, PartialEq, Eq, Structural)]
pub struct NormalizedDate {
    pub year: u32,
    pub month: u32,
    pub day: u32,
}

/// An ASCII decimal digit.
pub open spec fn is_digit(c: char) -> bool {
    48 <= c as int && c as int <= 57
}

/// The value of an ASCII decimal digit.
pub open spec fn digit_val(c: char) -> int {
    (c as int) - 48
}

/// Whether `YYYY-MM-DD` occurs at position `i` of `s`.
pub open spec fn ymd_at(s: Seq<char>, i: int) -> bool {
    &&& 0 <= i
    &&& i + 10 <= s.len()
    &&& is_digit(s[i]) && is_digit(s[i + 1]) && is_digit(s[i + 2]) && is_digit(s[i + 3])
    &&& s[i + 4] == '-'
    &&& is_digit(s[i + 5]) && is_digit(s[i + 6])
    &&& s[i + 7] == '-'
    &&& is_digit(s[i + 8]) && is_digit(s[i + 9])
}

/// Whether `MM/YYYY` occurs at position `i` of `s`.
pub open spec fn myr_at(s: Seq<char>, i: int) -> bool {
    &&& 0 <= i
    &&& i + 7 <= s.len()
    &&& is_digit(s[i]) && is_digit(s[i + 1])
    &&& s[i + 2] == '/'
    &&& is_digit(s[i + 3]) && is_digit(s[i + 4]) && is_digit(s[i + 5]) && is_digit(s[i + 6])
}

/// The first position at or after `i` where `YYYY-MM-DD` occurs.
pub open spec fn find_ymd_from(s: Seq<char>, i: int) -> Option<int>
    decreases s.len() - i,
{
    if i < 0 || i + 10 > s.len() {
        None
    } else if ymd_at(s, i) {
        Some(i)
    } else {
        find_ymd_from(s, i + 1)
    }
}

/// The first position at or after `i` where `MM/YYYY` occurs.
pub open spec fn find_myr_from(s: Seq<char>, i: int) -> Option<int>
    decreases s.len() - i,
{
    if i < 0 || i + 7 > s.len() {
        None
    } else if myr_at(s, i) {
        Some(i)
    } else {
        find_myr_from(s, i + 1)
    }
}

/// The number read from `n` digits starting at `i`.
pub open spec fn digits_val(s: Seq<char>, i: int, n: int) -> int
    decreases n,
{
    if n <= 0 {
        0
    } else {
        digits_val(s, i, n - 1) * 10 + digit_val(s[i + n - 1])
    }
}

/// Whether `y`-`m` has a 29th of February.
pub open spec fn is_leap_year(y: int) -> bool {
    y % 4 == 0 && (y % 100 != 0 || y % 400 == 0)
}

/// The number of days of month `m` of year `y`.
pub open spec fn days_in_month(y: int, m: int) -> int {
    if m == 1 || m == 3 || m == 5 || m == 7 || m == 8 || m == 10 || m == 12 {
        31
    } else if m == 4 || m == 6 || m == 9 || m == 11 {
        30
    } else if is_leap_year(y) {
        29
    } else {
        28
    }
}

/// A real calendar day.
pub open spec fn valid_date(y: int, m: int, d: int) -> bool {
    1 <= m && m <= 12 && 1 <= d && d <= days_in_month(y, m)
}

/// What normalizing a date string yields: the first `YYYY-MM-DD`
/// occurrence if there is one, else the first `MM/YYYY` occurrence with
/// the day defaulted to 1; `None` when neither occurs or the digits name
/// no real calendar day.
pub open spec fn spec_parse_date(s: Seq<char>) -> Option<NormalizedDate> {
    match find_ymd_from(s, 0) {
        Some(i) => {
            let y = digits_val(s, i, 4);
            let m = digits_val(s, i + 5, 2);
            let d = digits_val(s, i + 8, 2);
            if valid_date(y, m, d) {
                Some(NormalizedDate { year: y as u32, month: m as u32, day: d as u32 })
            } else {
                None
            }
        },
        None => match find_myr_from(s, 0) {
            Some(i) => {
                let m = digits_val(s, i, 2);
                let y = digits_val(s, i + 3, 4);
                if valid_date(y, m, 1) {
                    Some(NormalizedDate { year: y as u32, month: m as u32, day: 1 })
                } else {
                    None
                }
            },
            None => None,
        },
    }
}

/// A position with no earlier occurrence is what the finder returns.
proof fn lemma_find_ymd(s: Seq<char>, i: int)
    requires
        0 <= i,
        ymd_at(s, i),
        forall|j: int| 0 <= j < i ==> !ymd_at(s, j),
    ensures
        find_ymd_from(s, 0) == Some(i),
    decreases i,
{
    if i == 0 {
    } else {
        lemma_find_ymd_step(s, 0, i);
    }
}

/// When no position matches, the finder finds nothing.
proof fn lemma_find_ymd_absent(s: Seq<char>, from: int)
    requires
        forall|j: int| !ymd_at(s, j),
    ensures
        find_ymd_from(s, from) is None,
    decreases s.len() - from,
{
    if 0 <= from && from + 10 <= s.len() {
        lemma_find_ymd_absent(s, from + 1);
    }
}

/// Walking the finder forward over positions that do not match.
proof fn lemma_find_ymd_step(s: Seq<char>, lo: int, i: int)
    requires
        0 <= lo <= i,
        forall|j: int| lo <= j < i ==> !ymd_at(s, j),
    ensures
        find_ymd_from(s, lo) == find_ymd_from(s, i),
    decreases i - lo,
{
    if lo < i {
        if lo + 10 > s.len() {
            lemma_find_ymd_none(s, lo);
            lemma_find_ymd_none(s, i);
        } else {
            lemma_find_ymd_step(s, lo + 1, i);
        }
    }
}

/// Past the last possible start, the finder finds nothing.
proof fn lemma_find_ymd_none(s: Seq<char>, i: int)
    requires
        i + 10 > s.len(),
    ensures
        find_ymd_from(s, i) is None,
    decreases s.len() - i,
{
    if 0 <= i && i + 10 <= s.len() {
        lemma_find_ymd_none(s, i + 1);
    }
}

/// A position with no earlier occurrence is what the finder returns.
proof fn lemma_find_myr(s: Seq<char>, i: int)
    requires
        0 <= i,
        myr_at(s, i),
        forall|j: int| 0 <= j < i ==> !myr_at(s, j),
    ensures
        find_myr_from(s, 0) == Some(i),
    decreases i,
{
    if i == 0 {
    } else {
        lemma_find_myr_step(s, 0, i);
    }
}

/// When no position matches, the finder finds nothing.
proof fn lemma_find_myr_absent(s: Seq<char>, from: int)
    requires
        forall|j: int| !myr_at(s, j),
    ensures
        find_myr_from(s, from) is None,
    decreases s.len() - from,
{
    if 0 <= from && from + 7 <= s.len() {
        lemma_find_myr_absent(s, from + 1);
    }
}

/// Walking the finder forward over positions that do not match.
proof fn lemma_find_myr_step(s: Seq<char>, lo: int, i: int)
    requires
        0 <= lo <= i,
        forall|j: int| lo <= j < i ==> !myr_at(s, j),
    ensures
        find_myr_from(s, lo) == find_myr_from(s, i),
    decreases i - lo,
{
    if lo < i {
        if lo + 7 > s.len() {
            lemma_find_myr_none(s, lo);
            lemma_find_myr_none(s, i);
        } else {
            lemma_find_myr_step(s, lo + 1, i);
        }
    }
}

/// Past the last possible start, the finder finds nothing.
proof fn lemma_find_myr_none(s: Seq<char>, i: int)
    requires
        i + 7 > s.len(),
    ensures
        find_myr_from(s, i) is None,
    decreases s.len() - i,
{
    if 0 <= i && i + 7 <= s.len() {
        lemma_find_myr_none(s, i + 1);
    }
}

/// Whether `c` is an ASCII decimal digit.
fn digit(c: char) -> (r: bool)
    ensures
        r == is_digit(c),
{
    let u = c as u32;
    48 <= u && u <= 57
}

/// Ten to a small power.
spec fn tenpow(k: int) -> int
    decreases k,
{
    if k <= 0 {
        1
    } else {
        10 * tenpow(k - 1)
    }
}

/// Reads `n` digits of `s` starting at `i` as a number.
#[verifier::loop_isolation(false)]
fn read_digits(s: &str, i: usize, n: usize) -> (r: u32)
    requires
        s@.len() <= usize::MAX,
        i + n <= s@.len(),
        n <= 4,
        forall|j: int| i <= j < i + n ==> is_digit(#[trigger] s@[j]),
    ensures
        r == digits_val(s@, i as int, n as int),
{
    proof {
        assert(tenpow(0) == 1);
        assert(tenpow(1) == 10);
        assert(tenpow(2) == 100);
        assert(tenpow(3) == 1000);
        assert(tenpow(4) == 10000);
    }
    let mut acc: u32 = 0;
    let mut k: usize = 0;
    while k < n
        invariant
            k <= n,
            acc == digits_val(s@, i as int, k as int),
            acc < tenpow(k as int),
        decreases n - k,
    {
        let c = s.get_char(i + k);
        proof {
            assert(is_digit(s@[i + k]));
            assert(48 <= c as int && c as int <= 57);
        }
        acc = acc * 10 + (c as u32 - 48);
        k += 1;
    }
    acc
}

/// Whether `YYYY-MM-DD` occurs at position `i`.
fn ymd_here(s: &str, i: usize, n: usize) -> (r: bool)
    requires
        n == s@.len(),
        i + 10 <= n,
    ensures
        r == ymd_at(s@, i as int),
{
    digit(s.get_char(i)) && digit(s.get_char(i + 1)) && digit(s.get_char(i + 2)) && digit(
        s.get_char(i + 3),
    ) && s.get_char(i + 4) == '-' && digit(s.get_char(i + 5)) && digit(s.get_char(i + 6))
        && s.get_char(i + 7) == '-' && digit(s.get_char(i + 8)) && digit(s.get_char(i + 9))
}

/// Whether `MM/YYYY` occurs at position `i`.
fn myr_here(s: &str, i: usize, n: usize) -> (r: bool)
    requires
        n == s@.len(),
        i + 7 <= n,
    ensures
        r == myr_at(s@, i as int),
{
    digit(s.get_char(i)) && digit(s.get_char(i + 1)) && s.get_char(i + 2) == '/' && digit(
        s.get_char(i + 3),
    ) && digit(s.get_char(i + 4)) && digit(s.get_char(i + 5)) && digit(s.get_char(i + 6))
}

/// The number of days of month `m` of year `y`.
fn month_days(y: u32, m: u32) -> (r: u32)
    ensures
        r == days_in_month(y as int, m as int),
{
    if m == 1 || m == 3 || m == 5 || m == 7 || m == 8 || m == 10 || m == 12 {
        31
    } else if m == 4 || m == 6 || m == 9 || m == 11 {
        30
    } else if y % 4 == 0 && (y % 100 != 0 || y % 400 == 0) {
        29
    } else {
        28
    }
}

/// Normalizes a record's date string: takes the first `YYYY-MM-DD`
/// occurrence, else the first `MM/YYYY` occurrence (day defaulted to 1),
/// and fails on anything else or on digits that name no real calendar day.
#[verifier::loop_isolation(false)]
pub fn parse_zotero_date(s: &str) -> (r: Result<NormalizedDate, ZoteroApiError>)
    ensures
        match spec_parse_date(s@) {
            Some(d) => r == Ok::<NormalizedDate, ZoteroApiError>(d),
            None => r matches Err(e) && e is ParseResponseError,
        },
{
    let n = s.unicode_len();
    let mut i: usize = 0;
    while n - i >= 10
        invariant
            i <= n,
            n == s@.len(),
            forall|j: int| 0 <= j < i ==> !ymd_at(s@, j),
        decreases n - i,
    {
        if ymd_here(s, i, n) {
            proof {
                lemma_find_ymd(s@, i as int);
            }
            let y = read_digits(s, i, 4);
            let m = read_digits(s, i + 5, 2);
            let d = read_digits(s, i + 8, 2);
            if 1 <= m && m <= 12 && 1 <= d && d <= month_days(y, m) {
                return Ok(NormalizedDate { year: y, month: m, day: d });
            } else {
                return Err(
                    ZoteroApiError::ParseResponseError(
                        "the date digits name no real calendar day".to_owned(),
                    ),
                );
            }
        }
        i += 1;
    }
    proof {
        assert forall|j: int| !ymd_at(s@, j) by {
            if 0 <= j < i as int {
                assert(!ymd_at(s@, j));
            }
        }
        lemma_find_ymd_absent(s@, 0);
    }
    let mut i: usize = 0;
    while n - i >= 7
        invariant
            i <= n,
            n == s@.len(),
            forall|j: int| 0 <= j < i ==> !myr_at(s@, j),
        decreases n - i,
    {
        if myr_here(s, i, n) {
            proof {
                lemma_find_myr(s@, i as int);
            }
            let m = read_digits(s, i, 2);
            let y = read_digits(s, i + 3, 4);
            if 1 <= m && m <= 12 {
                return Ok(NormalizedDate { year: y, month: m, day: 1 });
            } else {
                return Err(
                    ZoteroApiError::ParseResponseError(
                        "the date digits name no real calendar month".to_owned(),
                    ),
                );
            }
        }
        i += 1;
    }
    proof {
        assert forall|j: int| !myr_at(s@, j) by {
            if 0 <= j < i as int {
                assert(!myr_at(s@, j));
            }
        }
        lemma_find_myr_absent(s@, 0);
    }
    Err(ZoteroApiError::ParseResponseError("the date matches no recognized pattern".to_owned()))
}

} // verus!
