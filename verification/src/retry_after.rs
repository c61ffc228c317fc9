//! The `Retry-After` header: a number of seconds, or an HTTP date.
use vstd::prelude::*;

use crate::text::{chars_of, decimal, decimal_string, push_char};

verus! {

/// Whether `c` has the Unicode `White_Space` property.
pub open spec fn white_space(c: char) -> bool {
    ('\u{9}' <= c <= '\u{d}') || c == ' ' || c == '\u{85}' || c == '\u{a0}' || c == '\u{1680}'
        || ('\u{2000}' <= c <= '\u{200a}') || c == '\u{2028}' || c == '\u{2029}' || c == '\u{202f}'
        || c == '\u{205f}' || c == '\u{3000}'
}

/// `s` less its leading white space.
pub open spec fn trim_start(s: Seq<char>) -> Seq<char>
    decreases s.len(),
{
    if s.len() > 0 && white_space(s[0]) {
        trim_start(s.skip(1))
    } else {
        s
    }
}

/// `s` less its trailing white space.
pub open spec fn trim_end(s: Seq<char>) -> Seq<char>
    decreases s.len(),
{
    if s.len() > 0 && white_space(s.last()) {
        trim_end(s.drop_last())
    } else {
        s
    }
}

/// `s` less its leading and trailing white space.
pub open spec fn trim(s: Seq<char>) -> Seq<char> {
    trim_end(trim_start(s))
}

/// Whether `c` is an ASCII digit.
pub open spec fn is_digit(c: char) -> bool {
    '0' <= c <= '9'
}

/// The value of an ASCII digit.
pub open spec fn digit_of(c: char) -> int {
    c as int - 48
}

/// The end of the run of digits of `s` that starts at `k`.
pub open spec fn digits_from(s: Seq<char>, k: int) -> int
    decreases s.len() - k,
{
    if 0 <= k < s.len() && is_digit(s[k]) {
        digits_from(s, k + 1)
    } else {
        k
    }
}

/// Where `s` goes on after an optional sign at `k`.
pub open spec fn after_sign(s: Seq<char>, k: int) -> int {
    if 0 <= k < s.len() && (s[k] == '+' || s[k] == '-') {
        k + 1
    } else {
        k
    }
}

/// `c` with ASCII upper-case letters made lower-case.
pub open spec fn ascii_lower(c: char) -> char {
    if 'A' <= c <= 'Z' {
        ((c as int) + 32) as char
    } else {
        c
    }
}

/// Whether `t` spells `w` (lower-case) in any mix of ASCII case.
pub open spec fn spells(t: Seq<char>, w: Seq<char>) -> bool {
    t.len() == w.len() && forall|i: int| 0 <= i < t.len() ==> ascii_lower(t[i]) == w[i]
}

/// Whether `s` is a floating-point literal as `f64` parsing reads it: an
/// optional sign, then `inf`, `infinity` or `nan` in any case, or digits with
/// an optional fraction (at least one digit in all) and an optional exponent.
pub open spec fn float_syntax(s: Seq<char>) -> bool {
    let k = after_sign(s, 0);
    let t = s.skip(k);
    if spells(t, seq!['i', 'n', 'f']) || spells(t, seq!['i', 'n', 'f', 'i', 'n', 'i', 't', 'y'])
        || spells(t, seq!['n', 'a', 'n']) {
        true
    } else {
        let i = digits_from(s, k);
        let has_point = i < s.len() && s[i] == '.';
        let j = if has_point {
            digits_from(s, i + 1)
        } else {
            i
        };
        let mantissa = if has_point {
            i > k || j > i + 1
        } else {
            i > k
        };
        mantissa && (j == s.len() || ((s[j] == 'e' || s[j] == 'E') && {
            let e = after_sign(s, j + 1);
            let f = digits_from(s, e);
            f > e && f == s.len()
        }))
    }
}

/// Whether `y` is a leap year.
pub open spec fn is_leap(y: int) -> bool {
    y % 4 == 0 && (y % 100 != 0 || y % 400 == 0)
}

/// The number of days of year `y`.
pub open spec fn year_days(y: int) -> int {
    if is_leap(y) {
        366
    } else {
        365
    }
}

/// The number of days of month `m` (1 to 12) of year `y`.
pub open spec fn month_days(y: int, m: int) -> int {
    if m == 2 {
        if is_leap(y) {
            29
        } else {
            28
        }
    } else if m == 4 || m == 6 || m == 9 || m == 11 {
        30
    } else {
        31
    }
}

/// The days from 1970-01-01 to the first day of year `y` (from 1970 on).
pub open spec fn days_before_year(y: int) -> int
    decreases y - 1970,
{
    if y <= 1970 {
        0
    } else {
        days_before_year(y - 1) + year_days(y - 1)
    }
}

/// The days from the first day of year `y` to the first day of month `m`.
pub open spec fn days_before_month(y: int, m: int) -> int
    decreases m,
{
    if m <= 1 {
        0
    } else {
        days_before_month(y, m - 1) + month_days(y, m - 1)
    }
}

/// The month numbered by its three-letter English name, or 0.
pub open spec fn month_code(a: char, b: char, c: char) -> int {
    if a == 'J' && b == 'a' && c == 'n' {
        1
    } else if a == 'F' && b == 'e' && c == 'b' {
        2
    } else if a == 'M' && b == 'a' && c == 'r' {
        3
    } else if a == 'A' && b == 'p' && c == 'r' {
        4
    } else if a == 'M' && b == 'a' && c == 'y' {
        5
    } else if a == 'J' && b == 'u' && c == 'n' {
        6
    } else if a == 'J' && b == 'u' && c == 'l' {
        7
    } else if a == 'A' && b == 'u' && c == 'g' {
        8
    } else if a == 'S' && b == 'e' && c == 'p' {
        9
    } else if a == 'O' && b == 'c' && c == 't' {
        10
    } else if a == 'N' && b == 'o' && c == 'v' {
        11
    } else if a == 'D' && b == 'e' && c == 'c' {
        12
    } else {
        0
    }
}

/// Whether `a`, `b`, `c` spell a three-letter English day name.
pub open spec fn day_name(a: char, b: char, c: char) -> bool {
    (a == 'M' && b == 'o' && c == 'n') || (a == 'T' && b == 'u' && c == 'e') || (a == 'W' && b
        == 'e' && c == 'd') || (a == 'T' && b == 'h' && c == 'u') || (a == 'F' && b == 'r' && c
        == 'i') || (a == 'S' && b == 'a' && c == 't') || (a == 'S' && b == 'u' && c == 'n')
}

/// The number written by the two digits of `t` at `k`.
pub open spec fn two_digit(t: Seq<char>, k: int) -> int {
    10 * digit_of(t[k]) + digit_of(t[k + 1])
}

/// Whether `t` is an HTTP date in the IMF-fixdate form,
/// `Sun, 06 Nov 1994 08:49:37 GMT`, naming a day that exists.
pub open spec fn imf_fixdate(t: Seq<char>) -> bool {
    &&& t.len() == 29
    &&& day_name(t[0], t[1], t[2])
    &&& t[3] == ',' && t[4] == ' ' && t[7] == ' ' && t[11] == ' ' && t[16] == ' '
    &&& t[19] == ':' && t[22] == ':' && t[25] == ' '
    &&& t[26] == 'G' && t[27] == 'M' && t[28] == 'T'
    &&& is_digit(t[5]) && is_digit(t[6])
    &&& forall|i: int| 12 <= i < 16 ==> is_digit(#[trigger] t[i])
    &&& is_digit(t[17]) && is_digit(t[18]) && is_digit(t[20]) && is_digit(t[21])
    &&& is_digit(t[23]) && is_digit(t[24])
    &&& month_code(t[8], t[9], t[10]) != 0
    &&& 1 <= two_digit(t, 5) <= month_days(date_year(t), month_code(t[8], t[9], t[10]))
    &&& two_digit(t, 17) < 24 && two_digit(t, 20) < 60 && two_digit(t, 23) <= 60
}

/// The year of an IMF-fixdate.
pub open spec fn date_year(t: Seq<char>) -> int {
    100 * two_digit(t, 12) + two_digit(t, 14)
}

/// The seconds since 1970-01-01 00:00:00 UTC of an IMF-fixdate from 1970 on.
pub open spec fn date_seconds(t: Seq<char>) -> int {
    let y = date_year(t);
    let days = days_before_year(y) + days_before_month(y, month_code(t[8], t[9], t[10]))
        + two_digit(t, 5) - 1;
    days * 86400 + two_digit(t, 17) * 3600 + two_digit(t, 20) * 60 + two_digit(t, 23)
}

/// The whole seconds from `now` (seconds since 1970) until the HTTP date
/// `t`, zero when it has passed; nothing when `t` is no IMF-fixdate.
pub open spec fn date_delay(t: Seq<char>, now: nat) -> Option<nat> {
    if !imf_fixdate(t) {
        None
    } else if date_year(t) < 1970 || date_seconds(t) <= now {
        Some(0)
    } else {
        Some((date_seconds(t) - now) as nat)
    }
}

/// The delay a `Retry-After` header asks for, as text of seconds: the
/// header's number (trimmed) when it is one, else the seconds until its HTTP
/// date; nothing when it is neither.
pub open spec fn retry_after_text(raw: Seq<char>, now: nat) -> Option<Seq<char>> {
    let t = trim(raw);
    if float_syntax(t) {
        Some(t)
    } else {
        match date_delay(t, now) {
            Some(d) => Some(decimal(d)),
            None => None,
        }
    }
}

fn white_space_char(c: char) -> (r: bool)
    ensures
        r == white_space(c),
{
    ('\u{9}' <= c && c <= '\u{d}') || c == ' ' || c == '\u{85}' || c == '\u{a0}' || c
        == '\u{1680}' || ('\u{2000}' <= c && c <= '\u{200a}') || c == '\u{2028}' || c
        == '\u{2029}' || c == '\u{202f}' || c == '\u{205f}' || c == '\u{3000}'
}

/// The characters of `raw` less leading and trailing white space.
fn trimmed(raw: &str) -> (t: Vec<char>)
    ensures
        t@ == trim(raw@),
{
    let c = chars_of(raw);
    let n = c.len();
    let mut a: usize = 0;
    assert(c@.skip(0) =~= c@);
    while a < n && white_space_char(c[a])
        invariant
            a <= n == c@.len(),
            c@ == raw@,
            trim_start(c@) == trim_start(c@.skip(a as int)),
        decreases n - a,
    {
        assert(c@.skip(a as int).skip(1) =~= c@.skip(a + 1));
        a = a + 1;
    }
    let ghost start = c@.skip(a as int);
    let mut b: usize = n;
    assert(c@.subrange(a as int, n as int) =~= start);
    while b > a && white_space_char(c[b - 1])
        invariant
            a <= b <= n == c@.len(),
            start == c@.skip(a as int),
            trim_end(start) == trim_end(c@.subrange(a as int, b as int)),
        decreases b,
    {
        assert(c@.subrange(a as int, b as int).drop_last() =~= c@.subrange(a as int, b - 1));
        b = b - 1;
    }
    let mut t: Vec<char> = Vec::new();
    let mut k = a;
    while k < b
        invariant
            a <= k <= b <= n == c@.len(),
            t@ == c@.subrange(a as int, k as int),
        decreases b - k,
    {
        t.push(c[k]);
        assert(t@ =~= c@.subrange(a as int, k + 1));
        k = k + 1;
    }
    t
}

fn digit_char(c: char) -> (r: bool)
    ensures
        r == is_digit(c),
{
    '0' <= c && c <= '9'
}

fn digits_end(s: &Vec<char>, k: usize) -> (r: usize)
    requires
        k <= s@.len(),
    ensures
        r == digits_from(s@, k as int),
        k <= r <= s@.len(),
{
    let mut i = k;
    while i < s.len() && digit_char(s[i])
        invariant
            k <= i <= s@.len(),
            digits_from(s@, k as int) == digits_from(s@, i as int),
        decreases s@.len() - i,
    {
        i = i + 1;
    }
    i
}

fn sign_end(s: &Vec<char>, k: usize) -> (r: usize)
    requires
        k <= s@.len(),
    ensures
        r == after_sign(s@, k as int),
        k <= r <= s@.len(),
{
    if k < s.len() && (s[k] == '+' || s[k] == '-') {
        k + 1
    } else {
        k
    }
}

fn lower_char(c: char) -> (r: char)
    ensures
        r == ascii_lower(c),
{
    if 'A' <= c && c <= 'Z' {
        ((c as u32) + 32) as u8 as char
    } else {
        c
    }
}

/// Whether `s` from `k` on spells `w`.
fn spells_from(s: &Vec<char>, k: usize, w: &Vec<char>) -> (r: bool)
    requires
        k <= s@.len(),
    ensures
        r == spells(s@.skip(k as int), w@),
{
    if s.len() - k != w.len() {
        return false;
    }
    let n = s.len();
    let mut i: usize = 0;
    while i < w.len()
        invariant
            n == s@.len(),
            s@.len() - k == w@.len(),
            k <= s@.len(),
            i <= w@.len(),
            forall|j: int| 0 <= j < i ==> ascii_lower(s@.skip(k as int)[j]) == w@[j],
        decreases w@.len() - i,
    {
        if lower_char(s[k + i]) != w[i] {
            assert(s@.skip(k as int)[i as int] == s@[k + i]);
            return false;
        }
        i = i + 1;
    }
    true
}

/// Whether `s` is a floating-point literal as `f64` parsing reads it.
fn is_float(s: &Vec<char>) -> (r: bool)
    ensures
        r == float_syntax(s@),
{
    let k = sign_end(s, 0);
    if spells_from(s, k, &vec!['i', 'n', 'f']) || spells_from(
        s,
        k,
        &vec!['i', 'n', 'f', 'i', 'n', 'i', 't', 'y'],
    ) || spells_from(s, k, &vec!['n', 'a', 'n']) {
        return true;
    }
    let i = digits_end(s, k);
    let has_point = i < s.len() && s[i] == '.';
    let j = if has_point {
        digits_end(s, i + 1)
    } else {
        i
    };
    let mantissa = if has_point {
        i > k || j > i + 1
    } else {
        i > k
    };
    if !mantissa {
        return false;
    }
    if j == s.len() {
        return true;
    }
    if s[j] != 'e' && s[j] != 'E' {
        return false;
    }
    let e = sign_end(s, j + 1);
    let f = digits_end(s, e);
    f > e && f == s.len()
}


fn month_number(a: char, b: char, c: char) -> (r: u64)
    ensures
        r == month_code(a, b, c),
{
    if a == 'J' && b == 'a' && c == 'n' {
        1
    } else if a == 'F' && b == 'e' && c == 'b' {
        2
    } else if a == 'M' && b == 'a' && c == 'r' {
        3
    } else if a == 'A' && b == 'p' && c == 'r' {
        4
    } else if a == 'M' && b == 'a' && c == 'y' {
        5
    } else if a == 'J' && b == 'u' && c == 'n' {
        6
    } else if a == 'J' && b == 'u' && c == 'l' {
        7
    } else if a == 'A' && b == 'u' && c == 'g' {
        8
    } else if a == 'S' && b == 'e' && c == 'p' {
        9
    } else if a == 'O' && b == 'c' && c == 't' {
        10
    } else if a == 'N' && b == 'o' && c == 'v' {
        11
    } else if a == 'D' && b == 'e' && c == 'c' {
        12
    } else {
        0
    }
}

fn is_day_name(a: char, b: char, c: char) -> (r: bool)
    ensures
        r == day_name(a, b, c),
{
    (a == 'M' && b == 'o' && c == 'n') || (a == 'T' && b == 'u' && c == 'e') || (a == 'W' && b
        == 'e' && c == 'd') || (a == 'T' && b == 'h' && c == 'u') || (a == 'F' && b == 'r' && c
        == 'i') || (a == 'S' && b == 'a' && c == 't') || (a == 'S' && b == 'u' && c == 'n')
}

fn two_digits(t: &Vec<char>, k: usize) -> (r: u64)
    requires
        k + 1 < t@.len(),
        is_digit(t@[k as int]),
        is_digit(t@[k + 1]),
    ensures
        r == two_digit(t@, k as int),
        r < 100,
{
    let n = t.len();
    assert(k + 1 < n);
    let hi = (t[k] as u32 - 48) as u64;
    let lo = (t[k + 1] as u32 - 48) as u64;
    hi * 10 + lo
}

fn leap(y: u64) -> (r: bool)
    ensures
        r == is_leap(y as int),
{
    y % 4 == 0 && (y % 100 != 0 || y % 400 == 0)
}

fn days_of_year(y: u64) -> (r: u64)
    ensures
        r == year_days(y as int),
{
    if leap(y) {
        366
    } else {
        365
    }
}

fn days_of_month(y: u64, m: u64) -> (r: u64)
    ensures
        r == month_days(y as int, m as int),
        r <= 31,
{
    if m == 2 {
        if leap(y) {
            29
        } else {
            28
        }
    } else if m == 4 || m == 6 || m == 9 || m == 11 {
        30
    } else {
        31
    }
}

fn days_to_year(y: u64) -> (r: u64)
    requires
        1970 <= y <= 9999,
    ensures
        r == days_before_year(y as int),
        r <= 366 * (y - 1970),
{
    let mut acc: u64 = 0;
    let mut yy: u64 = 1970;
    while yy < y
        invariant
            1970 <= yy <= y <= 9999,
            acc == days_before_year(yy as int),
            acc <= 366 * (yy - 1970),
        decreases y - yy,
    {
        acc = acc + days_of_year(yy);
        yy = yy + 1;
    }
    acc
}

fn days_to_month(y: u64, m: u64) -> (r: u64)
    requires
        1 <= m <= 12,
    ensures
        r == days_before_month(y as int, m as int),
        r <= 31 * (m - 1),
{
    let mut acc: u64 = 0;
    let mut mm: u64 = 1;
    while mm < m
        invariant
            1 <= mm <= m <= 12,
            acc == days_before_month(y as int, mm as int),
            acc <= 31 * (mm - 1),
        decreases m - mm,
    {
        acc = acc + days_of_month(y, mm);
        mm = mm + 1;
    }
    acc
}

/// The seconds from `now` until the HTTP date `t`.
fn date_delay_of(t: &Vec<char>, now: u64) -> (r: Option<u64>)
    ensures
        match r {
            Some(d) => date_delay(t@, now as nat) == Some(d as nat),
            None => date_delay(t@, now as nat) is None,
        },
{
    if t.len() != 29 {
        return None;
    }
    if !(is_day_name(t[0], t[1], t[2]) && t[3] == ',' && t[4] == ' ' && t[7] == ' ' && t[11]
        == ' ' && t[16] == ' ' && t[19] == ':' && t[22] == ':' && t[25] == ' ' && t[26] == 'G'
        && t[27] == 'M' && t[28] == 'T') {
        return None;
    }
    if !(digit_char(t[5]) && digit_char(t[6]) && digit_char(t[12]) && digit_char(t[13])
        && digit_char(t[14]) && digit_char(t[15]) && digit_char(t[17]) && digit_char(t[18])
        && digit_char(t[20]) && digit_char(t[21]) && digit_char(t[23]) && digit_char(t[24])) {
        proof {
            if !(is_digit(t@[12]) && is_digit(t@[13]) && is_digit(t@[14]) && is_digit(t@[15])) {
                assert(!imf_fixdate(t@));
            }
        }
        return None;
    }
    assert forall|i: int| 12 <= i < 16 implies is_digit(#[trigger] t@[i]) by {
        assert(i == 12 || i == 13 || i == 14 || i == 15);
    }
    let month = month_number(t[8], t[9], t[10]);
    if month == 0 {
        return None;
    }
    let year = two_digits(t, 12) * 100 + two_digits(t, 14);
    let day = two_digits(t, 5);
    let hour = two_digits(t, 17);
    let minute = two_digits(t, 20);
    let second = two_digits(t, 23);
    assert(year == date_year(t@));
    if !(1 <= day && day <= days_of_month(year, month) && hour < 24 && minute < 60 && second
        <= 60) {
        return None;
    }
    assert(imf_fixdate(t@));
    if year < 1970 {
        return Some(0);
    }
    let days = days_to_year(year) + days_to_month(year, month) + day - 1;
    let secs = days * 86400 + hour * 3600 + minute * 60 + second;
    assert(secs == date_seconds(t@));
    if secs <= now {
        Some(0)
    } else {
        Some(secs - now)
    }
}

/// The characters of `s` as a `String`.
fn string_of(s: &Vec<char>) -> (r: String)
    ensures
        r@ == s@,
{
    let mut r = String::new();
    let mut k: usize = 0;
    while k < s.len()
        invariant
            k <= s@.len(),
            r@ == s@.take(k as int),
        decreases s@.len() - k,
    {
        assert(s@.take(k + 1) =~= s@.take(k as int).push(s@[k as int]));
        push_char(&mut r, s[k]);
        k = k + 1;
    }
    assert(s@.take(s@.len() as int) =~= s@);
    r
}

/// The delay a `Retry-After` header asks for, as text of seconds: the
/// header's number (trimmed) when it is one, else the whole seconds from
/// `now_secs` (the clock, in seconds since 1970) until its HTTP date, zero
/// when the date has passed; nothing when the header is neither.
pub fn retry_after_value(raw: &str, now_secs: u64) -> (r: Option<String>)
    ensures
        match r {
            Some(s) => retry_after_text(raw@, now_secs as nat) == Some(s@),
            None => retry_after_text(raw@, now_secs as nat) is None,
        },
{
    let t = trimmed(raw);
    if is_float(&t) {
        return Some(string_of(&t));
    }
    match date_delay_of(&t, now_secs) {
        Some(d) => Some(decimal_string(d)),
        None => None,
    }
}

} // verus!

verus! {

/// Whether `t` is a whole number of seconds: one or more ASCII digits.
pub open spec fn whole_seconds(t: Seq<char>) -> bool {
    t.len() > 0 && forall|i: int| 0 <= i < t.len() ==> is_digit(#[trigger] t[i])
}

proof fn lemma_digits_run(t: Seq<char>, k: int)
    requires
        0 <= k <= t.len(),
        forall|i: int| 0 <= i < t.len() ==> is_digit(#[trigger] t[i]),
    ensures
        digits_from(t, k) == t.len(),
    decreases t.len() - k,
{
    if k < t.len() {
        lemma_digits_run(t, k + 1);
    }
}

proof fn lemma_trim_unchanged(t: Seq<char>)
    requires
        t.len() > 0,
        !white_space(t[0]),
        !white_space(t.last()),
    ensures
        trim(t) == t,
{
}

/// Law: a `Retry-After` header holding a whole number of seconds asks for
/// exactly that number, also with white space around it.
pub proof fn whole_seconds_are_taken_as_they_are(t: Seq<char>, now: nat)
    requires
        whole_seconds(t),
    ensures
        retry_after_text(t, now) == Some(t),
        retry_after_text(seq![' '] + t + seq![' '], now) == Some(t),
{
    lemma_digits_run(t, 0);
    assert(is_digit(t[0]) && is_digit(t.last()));
    lemma_trim_unchanged(t);
    let padded = seq![' '] + t + seq![' '];
    assert(padded.skip(1) =~= t + seq![' ']);
    assert(trim_start(padded) == trim_start(t + seq![' ']));
    assert((t + seq![' ']).drop_last() =~= t);
    assert(trim_start(t + seq![' ']) == t + seq![' ']);
    assert(trim(padded) == t);
    assert(!spells(t.skip(0), seq!['i', 'n', 'f']) && !spells(t.skip(0), seq!['n', 'a', 'n'])) by {
        assert(t.skip(0)[0] == t[0]);
    }
    assert(!spells(t.skip(0), seq!['i', 'n', 'f', 'i', 'n', 'i', 't', 'y'])) by {
        assert(t.skip(0)[0] == t[0]);
    }
    assert(float_syntax(t));
}

/// Law: an HTTP date that has passed asks for no wait at all, `0`; a date
/// still ahead asks for the whole seconds until it.
pub proof fn dates_ask_for_the_time_until_them(t: Seq<char>, now: nat)
    requires
        imf_fixdate(t),
    ensures
        date_seconds(t) <= now ==> retry_after_text(t, now) == Some(seq!['0']),
        date_year(t) >= 1970 && date_seconds(t) > now ==> retry_after_text(t, now) == Some(
            decimal((date_seconds(t) - now) as nat),
        ),
{
    lemma_trim_unchanged(t);
    assert(!is_digit(t[0]) && t[0] != '.');
    assert(!spells(t.skip(0), seq!['i', 'n', 'f']));
    assert(!spells(t.skip(0), seq!['n', 'a', 'n']));
    assert(!spells(t.skip(0), seq!['i', 'n', 'f', 'i', 'n', 'i', 't', 'y']));
    assert(!float_syntax(t));
    assert(decimal(0) =~= seq!['0']);
}

/// Law: the months of a year add up to the year: 365 days, or 366 in a leap
/// year (one divisible by 4, except centuries not divisible by 400), when
/// February has 29 days; and the days from one New Year's Day to the next
/// are the days of the year.
pub proof fn the_months_fill_the_year(y: int)
    requires
        y >= 1970,
    ensures
        days_before_month(y, 13) == days_before_year(y + 1) - days_before_year(y),
        days_before_month(y, 13) == if y % 4 == 0 && (y % 100 != 0 || y % 400 == 0) {
            366int
        } else {
            365int
        },
        month_days(y, 2) == days_before_month(y, 13) - 337,
{
    reveal_with_fuel(days_before_month, 13);
}

} // verus!
