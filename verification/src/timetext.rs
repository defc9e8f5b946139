//! Reading and writing clock times of the form `HH:MM`.
//!
//! A time of day is represented by the number of seconds after midnight.
use vstd::prelude::*;

use crate::clock::time_from_hm;

verus! {

// ---------------------------------------------------------------------------
// Characters
// ---------------------------------------------------------------------------

/// Unicode `White_Space`, the set that `char::is_whitespace` (and so `str::trim`) uses.
pub open spec fn is_white_space(c: char) -> bool {
    let u = c as u32;
    ||| (9 <= u && u <= 13)
    ||| u == 32
    ||| u == 0x85
    ||| u == 0xa0
    ||| u == 0x1680
    ||| (0x2000 <= u && u <= 0x200a)
    ||| u == 0x2028
    ||| u == 0x2029
    ||| u == 0x202f
    ||| u == 0x205f
    ||| u == 0x3000
}

/// An ASCII decimal digit.
pub open spec fn is_digit(c: char) -> bool {
    48 <= (c as u32) && (c as u32) <= 57
}

pub open spec fn digit_value(c: char) -> int {
    (c as u32) - 48
}

/// The character that writes the decimal digit `d` (`0 <= d <= 9`).
pub open spec fn digit_char(d: int) -> char {
    if d <= 0 {
        '0'
    } else if d == 1 {
        '1'
    } else if d == 2 {
        '2'
    } else if d == 3 {
        '3'
    } else if d == 4 {
        '4'
    } else if d == 5 {
        '5'
    } else if d == 6 {
        '6'
    } else if d == 7 {
        '7'
    } else if d == 8 {
        '8'
    } else {
        '9'
    }
}

pub fn is_white_space_char(c: char) -> (b: bool)
    ensures
        b == is_white_space(c),
{
    let u = c as u32;
    (9 <= u && u <= 13) || u == 32 || u == 0x85 || u == 0xa0 || u == 0x1680 || (0x2000 <= u && u
        <= 0x200a) || u == 0x2028 || u == 0x2029 || u == 0x202f || u == 0x205f || u == 0x3000
}

/// Collects the characters of a string into a vector.
pub fn chars_of(s: &str) -> (v: Vec<char>)
    ensures
        v@ == s@,
{
    let mut v: Vec<char> = Vec::new();
    for c in it: s.chars()
        invariant
            v@ == it.seq().take(it.index() as int),
    {
        v.push(c);
    }
    proof {
        broadcast use vstd::string::axiom_spec_iter;

        assert(v@ =~= s@);
    }
    v
}

/// Whether two strings hold the same characters.
pub fn str_equals(a: &str, b: &str) -> (r: bool)
    ensures
        r == (a@ == b@),
{
    let va = chars_of(a);
    let vb = chars_of(b);
    if va.len() != vb.len() {
        return false;
    }
    let n = va.len();
    for i in 0..n
        invariant
            n == va.len(),
            n == vb.len(),
            va@ == a@,
            vb@ == b@,
            forall|k: int| 0 <= k < i ==> va@[k] == vb@[k],
    {
        if va[i] != vb[i] {
            assert(a@[i as int] != b@[i as int]);
            return false;
        }
    }
    assert(a@ =~= b@);
    true
}

// ---------------------------------------------------------------------------
// Trimming
// ---------------------------------------------------------------------------

pub open spec fn trim_start(s: Seq<char>) -> Seq<char>
    decreases s.len(),
{
    if s.len() > 0 && is_white_space(s[0]) {
        trim_start(s.drop_first())
    } else {
        s
    }
}

pub open spec fn trim_end(s: Seq<char>) -> Seq<char>
    decreases s.len(),
{
    if s.len() > 0 && is_white_space(s.last()) {
        trim_end(s.drop_last())
    } else {
        s
    }
}

/// `str::trim`: white space removed from both ends.
pub open spec fn trim(s: Seq<char>) -> Seq<char> {
    trim_end(trim_start(s))
}

/// The bounds of `v[lo..hi]` once trimmed.
fn trim_bounds(v: &Vec<char>, lo: usize, hi: usize) -> (r: (usize, usize))
    requires
        lo <= hi <= v.len(),
    ensures
        lo <= r.0 <= r.1 <= hi,
        v@.subrange(r.0 as int, r.1 as int) == trim(v@.subrange(lo as int, hi as int)),
{
    let mut a = lo;
    while a < hi && is_white_space_char(v[a])
        invariant
            lo <= a <= hi <= v.len(),
            trim_start(v@.subrange(lo as int, hi as int)) == trim_start(
                v@.subrange(a as int, hi as int),
            ),
        decreases hi - a,
    {
        assert(v@.subrange(a as int, hi as int).drop_first() =~= v@.subrange(
            a + 1,
            hi as int,
        ));
        a = a + 1;
    }
    assert(trim_start(v@.subrange(a as int, hi as int)) == v@.subrange(a as int, hi as int));
    let mut b = hi;
    while b > a && is_white_space_char(v[b - 1])
        invariant
            lo <= a <= b <= hi <= v.len(),
            trim_end(v@.subrange(a as int, hi as int)) == trim_end(v@.subrange(a as int, b as int)),
        decreases b - a,
    {
        assert(v@.subrange(a as int, b as int).drop_last() =~= v@.subrange(a as int, b - 1));
        b = b - 1;
    }
    assert(trim_end(v@.subrange(a as int, b as int)) == v@.subrange(a as int, b as int));
    (a, b)
}

// ---------------------------------------------------------------------------
// Unsigned integers
// ---------------------------------------------------------------------------

/// The number written by the decimal digits of `s`.
pub open spec fn digits_value(s: Seq<char>) -> int
    decreases s.len(),
{
    if s.len() == 0 {
        0
    } else {
        digits_value(s.drop_last()) * 10 + digit_value(s.last())
    }
}

pub open spec fn all_digits(s: Seq<char>) -> bool {
    forall|i: int| 0 <= i < s.len() ==> is_digit(#[trigger] s[i])
}

/// The digits that `u32::from_str` reads: one leading `+` is allowed.
pub open spec fn unsigned_digits(s: Seq<char>) -> Seq<char> {
    if s.len() > 0 && s[0] == '+' {
        s.drop_first()
    } else {
        s
    }
}

/// What `u32::from_str` gives: `Some` exactly for a non-empty run of decimal digits,
/// after at most one `+`, whose value fits in a `u32`.
pub open spec fn parse_u32_spec(s: Seq<char>) -> Option<u32> {
    let d = unsigned_digits(s);
    if d.len() > 0 && all_digits(d) && digits_value(d) <= u32::MAX {
        Some(digits_value(d) as u32)
    } else {
        None
    }
}

/// Reads `v[lo..hi]` as `u32::from_str` does.
fn parse_u32_range(v: &Vec<char>, lo: usize, hi: usize) -> (r: Option<u32>)
    requires
        lo <= hi <= v.len(),
    ensures
        r == parse_u32_spec(v@.subrange(lo as int, hi as int)),
{
    let ghost s = v@.subrange(lo as int, hi as int);
    let mut start = lo;
    if start < hi && v[start] == '+' {
        start = start + 1;
    }
    assert(unsigned_digits(s) =~= v@.subrange(start as int, hi as int));
    if start == hi {
        return None;
    }
    let cap: u64 = 0x1_0000_0000;
    let mut val: u64 = 0;
    let mut i = start;
    while i < hi
        invariant
            lo <= start <= i <= hi <= v.len(),
            cap == 0x1_0000_0000,
            s == v@.subrange(lo as int, hi as int),
            v@.subrange(start as int, hi as int) == unsigned_digits(s),
            all_digits(v@.subrange(start as int, i as int)),
            val == (if digits_value(v@.subrange(start as int, i as int)) >= cap {
                cap as int
            } else {
                digits_value(v@.subrange(start as int, i as int))
            }),
        decreases hi - i,
    {
        let c = v[i];
        let u = c as u32;
        if !(48 <= u && u <= 57) {
            let ghost whole = v@.subrange(start as int, hi as int);
            assert(whole[i - start] == c);
            assert(!is_digit(whole[i - start]));
            assert(!all_digits(unsigned_digits(s)));
            assert(parse_u32_spec(s) is None);
            return None;
        }
        let d = (u - 48) as u64;
        let ghost old_sub = v@.subrange(start as int, i as int);
        let ghost new_sub = v@.subrange(start as int, i + 1);
        assert(new_sub.drop_last() =~= old_sub);
        assert(new_sub.last() == c);
        let next = val * 10 + d;
        if next >= cap {
            val = cap;
        } else {
            val = next;
        }
        i = i + 1;
        assert(all_digits(new_sub)) by {
            assert forall|k: int| 0 <= k < new_sub.len() implies is_digit(#[trigger] new_sub[k]) by {
                if k < old_sub.len() {
                    assert(new_sub[k] == old_sub[k]);
                }
            }
        }
    }
    assert(v@.subrange(start as int, i as int) =~= unsigned_digits(s));
    if val >= cap {
        None
    } else {
        Some(val as u32)
    }
}

// ---------------------------------------------------------------------------
// Clock times
// ---------------------------------------------------------------------------

/// The index of the first `':'` in `s` at or after `k`, or `s.len()` if there is none.
pub open spec fn colon_from(s: Seq<char>, k: int) -> int
    decreases s.len() - k,
{
    if k < 0 || k >= s.len() {
        s.len() as int
    } else if s[k] == ':' {
        k
    } else {
        colon_from(s, k + 1)
    }
}

/// The first two fields of `s.split(':')`, when there are at least two.
pub open spec fn time_fields(s: Seq<char>) -> Option<(Seq<char>, Seq<char>)> {
    let i = colon_from(s, 0);
    if i >= s.len() {
        None
    } else {
        let j = colon_from(s, i + 1);
        Some((s.subrange(0, i), s.subrange(i + 1, j)))
    }
}

/// The time of day that a text such as `"07:30"` or `" 7 : 30 : xx"` names, in seconds after
/// midnight: the text is split at `':'`; its first two fields, trimmed, must each read as a
/// `u32`, the hour below 24 and the minute below 60. Further fields are ignored.
pub open spec fn parse_time_spec(s: Seq<char>) -> Option<u32> {
    match time_fields(s) {
        None => None,
        Some(fields) => match (parse_u32_spec(trim(fields.0)), parse_u32_spec(trim(fields.1))) {
            (Some(h), Some(m)) => if h < 24 && m < 60 {
                Some((h * 3600 + m * 60) as u32)
            } else {
                None
            },
            _ => None,
        },
    }
}

/// The first `':'` in `v` at or after `k`.
fn find_colon(v: &Vec<char>, k: usize) -> (r: usize)
    requires
        k <= v.len(),
    ensures
        r as int == colon_from(v@, k as int),
        k <= r <= v.len(),
{
    let mut i = k;
    while i < v.len() && v[i] != ':'
        invariant
            k <= i <= v.len(),
            colon_from(v@, k as int) == colon_from(v@, i as int),
        decreases v.len() - i,
    {
        i = i + 1;
    }
    i
}

/// Reads a clock time `"HH:MM"` as seconds after midnight; see `parse_time_spec`.
pub fn parse_time(s: &str) -> (r: Option<u32>)
    ensures
        r == parse_time_spec(s@),
        r matches Some(t) ==> t < 86400 && t % 60 == 0,
{
    let v = chars_of(s);
    let i = find_colon(&v, 0);
    if i >= v.len() {
        return None;
    }
    let j = find_colon(&v, i + 1);
    let (a0, b0) = trim_bounds(&v, 0, i);
    let h = match parse_u32_range(&v, a0, b0) {
        Some(h) => h,
        None => {
            return None;
        },
    };
    let (a1, b1) = trim_bounds(&v, i + 1, j);
    let m = match parse_u32_range(&v, a1, b1) {
        Some(m) => m,
        None => {
            return None;
        },
    };
    time_from_hm(h, m)
}

/// The two-digit decimal text of `n` (`0 <= n < 100`), as `{:02}` writes it.
pub open spec fn two_digits(n: int) -> Seq<char> {
    seq![digit_char(n / 10), digit_char(n % 10)]
}

/// `"HH:MM"` for a time of day given in seconds after midnight (seconds are dropped).
pub open spec fn hhmm_text(secs: int) -> Seq<char> {
    two_digits(secs / 3600) + seq![':'] + two_digits((secs % 3600) / 60)
}

fn digit_text(d: u32) -> (r: &'static str)
    requires
        d < 10,
    ensures
        r@ == seq![digit_char(d as int)],
{
    proof {
        reveal_strlit("0");
        reveal_strlit("1");
        reveal_strlit("2");
        reveal_strlit("3");
        reveal_strlit("4");
        reveal_strlit("5");
        reveal_strlit("6");
        reveal_strlit("7");
        reveal_strlit("8");
        reveal_strlit("9");
    }
    if d == 0 {
        "0"
    } else if d == 1 {
        "1"
    } else if d == 2 {
        "2"
    } else if d == 3 {
        "3"
    } else if d == 4 {
        "4"
    } else if d == 5 {
        "5"
    } else if d == 6 {
        "6"
    } else if d == 7 {
        "7"
    } else if d == 8 {
        "8"
    } else {
        "9"
    }
}

/// Writes a time of day as `"HH:MM"`, zero-padded, as both `format!("{:02}:{:02}", ..)` and
/// chrono's `"%H:%M"` do.
pub fn format_hhmm(secs: u32) -> (r: String)
    requires
        secs < 86400,
    ensures
        r@ == hhmm_text(secs as int),
{
    let h = secs / 3600;
    let m = (secs % 3600) / 60;
    let mut r = String::new();
    r.append(digit_text(h / 10));
    r.append(digit_text(h % 10));
    proof {
        reveal_strlit(":");
    }
    r.append(":");
    r.append(digit_text(m / 10));
    r.append(digit_text(m % 10));
    assert(r@ =~= hhmm_text(secs as int));
    r
}

// ---------------------------------------------------------------------------
// Laws
// ---------------------------------------------------------------------------

proof fn lemma_digit_char_value(d: int)
    requires
        0 <= d <= 9,
    ensures
        is_digit(digit_char(d)),
        digit_value(digit_char(d)) == d,
        !is_white_space(digit_char(d)),
        digit_char(d) != ':',
        digit_char(d) != '+',
{
}

proof fn lemma_two_digits_parse(n: int)
    requires
        0 <= n < 100,
    ensures
        trim(two_digits(n)) == two_digits(n),
        parse_u32_spec(two_digits(n)) == Some(n as u32),
        colon_from(two_digits(n), 0) == 2,
{
    let s = two_digits(n);
    lemma_digit_char_value(n / 10);
    lemma_digit_char_value(n % 10);
    assert(trim_start(s) == s);
    assert(trim_end(s) == s);
    assert(s.drop_last() =~= seq![digit_char(n / 10)]);
    assert(s.drop_last().drop_last() =~= Seq::<char>::empty());
    let t = seq![digit_char(n / 10)];
    assert(t.drop_last() =~= Seq::<char>::empty());
    assert(digits_value(t.drop_last()) == 0);
    assert(t.last() == digit_char(n / 10));
    assert(digits_value(t) == n / 10);
    assert(digits_value(s) == (n / 10) * 10 + n % 10);
    assert(unsigned_digits(s) == s);
    assert(colon_from(s, 2) == 2);
    assert(colon_from(s, 1) == 2);
}

/// Reading back a written time gives that time rounded down to the minute: for every time
/// of day `t`, `parse_time(format_hhmm(t))` is `Some(t - t % 60)`.
pub proof fn lemma_format_then_parse(secs: u32)
    requires
        secs < 86400,
    ensures
        parse_time_spec(hhmm_text(secs as int)) == Some((secs - secs % 60) as u32),
{
    let h = (secs / 3600) as int;
    let m = ((secs % 3600) / 60) as int;
    let s = hhmm_text(secs as int);
    let hs = two_digits(h);
    let ms = two_digits(m);
    lemma_two_digits_parse(h);
    lemma_two_digits_parse(m);
    lemma_digit_char_value(h / 10);
    lemma_digit_char_value(h % 10);
    lemma_digit_char_value(m / 10);
    lemma_digit_char_value(m % 10);
    assert(s.len() == 5);
    assert(s[2] == ':');
    assert(colon_from(s, 5) == 5);
    assert(colon_from(s, 4) == 5);
    assert(colon_from(s, 3) == 5);
    assert(colon_from(s, 2) == 2);
    assert(s[1] == hs[1]);
    assert(s[0] == hs[0]);
    assert(colon_from(s, 1) == 2);
    assert(colon_from(s, 0) == 2);
    assert(s.subrange(0, 2) =~= hs);
    assert(s.subrange(3, 5) =~= ms);
    assert(h * 3600 + m * 60 == secs - secs % 60);
}

} // verus!
