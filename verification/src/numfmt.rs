use vstd::prelude::*;

use crate::units::CENTI_LIMIT;

verus! {

/// Decimal rendering and parsing, over hundredths-valued integers.
///
/// The provider hands every measurement over as decimal text; temperatures
/// and wind speeds are read into hundredths (two fractional digits) and
/// written back out the same way, so nothing in the library touches a float.

pub open spec fn is_digit_char(c: char) -> bool {
    48 <= c as int <= 57
}

pub open spec fn digit_val(c: char) -> int {
    c as int - 48
}

pub open spec fn digit_char(d: int) -> char {
    if d == 0 {
        '0'
    } else if d == 1 {
        '1'
    } else if d == 2 {
        '2'
    } else if d == 3 {
        '3'
    } else if d == 4 {
        '4'
    } else if d == 5 {
        '5'
    } else if d == 6 {
        '6'
    } else if d == 7 {
        '7'
    } else if d == 8 {
        '8'
    } else {
        '9'
    }
}

pub open spec fn all_digits(s: Seq<char>) -> bool {
    forall|i: int| 0 <= i < s.len() ==> is_digit_char(#[trigger] s[i])
}

/// The number a run of decimal digits denotes.
pub open spec fn digits_val(s: Seq<char>) -> int
    decreases s.len(),
{
    if s.len() == 0 {
        0
    } else {
        digits_val(s.drop_last()) * 10 + digit_val(s.last())
    }
}

/// The usual decimal numeral of a non-negative number, no leading zeros.
pub open spec fn dec_str(n: nat) -> Seq<char>
    decreases n,
{
    if n < 10 {
        seq![digit_char(n as int)]
    } else {
        dec_str(n / 10).push(digit_char((n % 10) as int))
    }
}

/// Two digits, zero-padded.
pub open spec fn two_digit_str(n: int) -> Seq<char> {
    seq![digit_char(n / 10), digit_char(n % 10)]
}

/// A hundredths value as a decimal with exactly two places, such as `-3.07`.
pub open spec fn centi_abs_str(m: int) -> Seq<char> {
    dec_str((m / 100) as nat) + "."@ + two_digit_str(m % 100)
}

pub open spec fn centi_str(c: int) -> Seq<char> {
    if c < 0 {
        "-"@ + centi_abs_str(0 - c)
    } else {
        centi_abs_str(c)
    }
}

/// A hundredths value in its shortest decimal form: trailing fraction
/// zeros drop, and a whole number keeps no point, as a shortest float
/// display prints it.
pub open spec fn trimmed_abs_str(m: int) -> Seq<char> {
    if m % 100 == 0 {
        dec_str((m / 100) as nat)
    } else if m % 10 == 0 {
        dec_str((m / 100) as nat) + "."@ + seq![digit_char(m % 100 / 10)]
    } else {
        centi_abs_str(m)
    }
}

pub open spec fn trimmed_centi_str(c: int) -> Seq<char> {
    if c < 0 {
        "-"@ + trimmed_abs_str(0 - c)
    } else {
        trimmed_abs_str(c)
    }
}

pub open spec fn pow10(k: nat) -> int
    decreases k,
{
    if k == 0 {
        1
    } else {
        10 * pow10((k - 1) as nat)
    }
}

/// The fraction digits read as hundredths: the first two carry the value,
/// and a third of five or more rounds it up to the nearest hundredth.
pub open spec fn frac_centi(fp: Seq<char>) -> int {
    if fp.len() == 1 {
        digit_val(fp[0]) * 10
    } else if fp.len() == 2 {
        digit_val(fp[0]) * 10 + digit_val(fp[1])
    } else {
        digit_val(fp[0]) * 10 + digit_val(fp[1]) + if digit_val(fp[2]) >= 5 {
            1int
        } else {
            0int
        }
    }
}

/// The hundredths value an unsigned decimal numeral denotes: up to fifteen
/// integer digits, then optionally a point and at least one fraction digit,
/// rounded to the nearest hundredth (halves up). Anything else is rejected.
pub open spec fn centi_unsigned(t: Seq<char>) -> Option<int> {
    match t.index_of_first('.') {
        Some(p) => {
            let ip = t.subrange(0, p);
            let fp = t.subrange(p + 1, t.len() as int);
            if 1 <= ip.len() <= 15 && all_digits(ip) && 1 <= fp.len() && all_digits(fp) {
                Some(digits_val(ip) * 100 + frac_centi(fp))
            } else {
                None
            }
        },
        None => {
            if 1 <= t.len() <= 15 && all_digits(t) {
                Some(digits_val(t) * 100)
            } else {
                None
            }
        },
    }
}

/// The hundredths value of a decimal numeral with an optional leading minus.
pub open spec fn centi_of(s: Seq<char>) -> Option<int> {
    if s.len() > 0 && s[0] == '-' {
        match centi_unsigned(s.drop_first()) {
            Some(v) => Some(-v),
            None => None,
        }
    } else {
        centi_unsigned(s)
    }
}

pub proof fn lemma_pow10_mono(a: nat, b: nat)
    requires
        a <= b,
    ensures
        1 <= pow10(a) <= pow10(b),
    decreases b,
{
    if a < b {
        lemma_pow10_mono(a, (b - 1) as nat);
    } else if a == b && a > 0 {
        lemma_pow10_mono((a - 1) as nat, (b - 1) as nat);
    }
}

proof fn lemma_pow10_15()
    ensures
        pow10(15) == 1_000_000_000_000_000,
{
    assert(pow10(15) == 1_000_000_000_000_000) by {
        reveal_with_fuel(pow10, 16);
    }
}

fn digit_at(s: &str, i: usize) -> (r: bool)
    requires
        i < s@.len(),
    ensures
        r == is_digit_char(s@[i as int]),
{
    let u: u32 = s.get_char(i) as u32;
    48 <= u && u <= 57
}

/// Reads a decimal numeral into hundredths: an optional minus, at most
/// fifteen integer digits, and an optional point with at least one fraction
/// digit. Returns `None` on any other shape; accepted values stay within
/// `CENTI_LIMIT`.
#[verifier::loop_isolation(false)]
#[verifier::rlimit(50)]
pub fn parse_centi(s: &str) -> (r: Option<i64>)
    ensures
        match r {
            Some(v) => centi_of(s@) == Some(v as int) && -CENTI_LIMIT <= v <= CENTI_LIMIT,
            None => centi_of(s@) is None,
        },
{
    let n = s.unicode_len();
    let neg: bool;
    let start: usize;
    if n > 0 && s.get_char(0) == '-' {
        neg = true;
        start = 1;
    } else {
        neg = false;
        start = 0;
    }
    let ghost t: Seq<char> = s@.subrange(start as int, n as int);
    proof {
        if neg {
            assert(t =~= s@.drop_first());
        } else {
            assert(t =~= s@);
        }
        t.index_of_first_ensures('.');
        lemma_pow10_15();
    }
    let ghost dot = t.index_of_first('.');

    let mut i: usize = start;
    let mut val: u64 = 0;
    while i < n && digit_at(s, i)
        invariant
            n == s@.len(),
            start <= i <= n,
            i - start <= 15,
            forall|j: int| start <= j < i ==> is_digit_char(#[trigger] s@[j]),
            val == digits_val(s@.subrange(start as int, i as int)),
            val < pow10((i - start) as nat),
        decreases n - i,
    {
        if i - start == 15 {
            // a sixteenth integer digit: the numeral is rejected
            proof {
                assert(forall|j: int| 0 <= j <= 15 ==> is_digit_char(#[trigger] t[j]));
                if dot is Some {
                    let p = dot->Some_0;
                    if p <= 15 {
                        assert(is_digit_char(t[p]));
                        assert(false);
                    }
                    assert(t.subrange(0, p).len() > 15);
                } else {
                    assert(t.len() > 15);
                }
            }
            return None;
        }
        let u: u32 = s.get_char(i) as u32;
        let d: u64 = (u - 48) as u64;
        proof {
            lemma_pow10_mono((i - start + 1) as nat, 15);
            assert(s@.subrange(start as int, i as int + 1).drop_last() =~= s@.subrange(
                start as int,
                i as int,
            ));
        }
        val = val * 10 + d;
        i = i + 1;
    }

    if i == start {
        // no integer digit at all
        proof {
            if t.len() == 0 {
                assert(dot is None);
                assert(centi_unsigned(t) is None);
            } else {
                assert(t[0] == s@[start as int]);
                assert(!is_digit_char(t[0]));
                if dot is Some {
                    let p = dot->Some_0;
                    if p == 0 {
                        assert(t.subrange(0, 0).len() == 0);
                    } else {
                        assert(t.subrange(0, p)[0] == t[0]);
                        assert(!all_digits(t.subrange(0, p)));
                    }
                } else {
                    assert(!all_digits(t));
                }
            }
        }
        return None;
    }

    proof {
        assert(t.subrange(0, i - start) =~= s@.subrange(start as int, i as int));
        lemma_pow10_mono((i - start) as nat, 15);
    }

    if i == n {
        // digits only: a whole number of degrees
        proof {
            if dot is Some {
                let p = dot->Some_0;
                assert(is_digit_char(t[p]));
                assert(false);
            }
            assert(t =~= s@.subrange(start as int, i as int));
        }
        let m: u64 = val * 100;
        let v: i64 = m as i64;
        if neg {
            return Some(-v);
        } else {
            return Some(v);
        }
    }

    if !(s.get_char(i) == '.') {
        // the integer digits stop at something other than a point
        proof {
            let ghost b: int = i - start;
            assert(t[b] == s@[i as int]);
            if dot is Some {
                let p = dot->Some_0;
                if p < b {
                    assert(is_digit_char(t[p]));
                    assert(false);
                } else if p == b {
                    assert(false);
                } else {
                    assert(t.subrange(0, p)[b] == t[b]);
                    assert(!all_digits(t.subrange(0, p)));
                }
            } else {
                assert(!all_digits(t));
            }
        }
        return None;
    }

    // the point sits right after the integer digits
    let ghost pd: int = i - start;
    proof {
        assert(t[pd] == '.');
        if dot is Some {
            let p = dot->Some_0;
            if p < pd {
                assert(is_digit_char(t[p]));
                assert(false);
            }
            assert(p == pd);
        } else {
            assert(t.contains('.')) by {
                assert(t[pd] == '.');
            }
            assert(false);
        }
        assert(t.subrange(0, pd) =~= s@.subrange(start as int, i as int));
    }

    let fstart = i + 1;
    if fstart >= n {
        // a point with no fraction digit
        proof {
            assert(t.subrange(pd + 1, t.len() as int).len() == 0);
        }
        return None;
    }

    let ghost fp: Seq<char> = t.subrange(pd + 1, t.len() as int);
    let mut j = fstart;
    while j < n
        invariant
            n == s@.len(),
            fstart <= j <= n,
            start + 1 <= fstart < n,
            fp == t.subrange(pd + 1, t.len() as int),
            pd == fstart - 1 - start,
            t == s@.subrange(start as int, n as int),
            forall|q: int| fstart <= q < j ==> is_digit_char(#[trigger] s@[q]),
        decreases n - j,
    {
        if !digit_at(s, j) {
            // a stray character inside the fraction
            proof {
                assert(fp[j - fstart] == s@[j as int]);
                assert(!all_digits(fp));
            }
            return None;
        }
        j = j + 1;
    }

    proof {
        assert(forall|q: int| 0 <= q < fp.len() ==> is_digit_char(#[trigger] fp[q])) by {
            assert(forall|q: int| 0 <= q < fp.len() ==> fp[q] == s@[q + fstart]);
        }
    }

    let d1u: u32 = s.get_char(fstart) as u32;
    let d1: u64 = (d1u - 48) as u64;
    let f: u64;
    if fstart + 1 < n {
        let d2u: u32 = s.get_char(fstart + 1) as u32;
        let d2: u64 = (d2u - 48) as u64;
        proof {
            assert(fp.len() >= 2);
            assert(fp[0] == s@[fstart as int]);
            assert(fp[1] == s@[fstart as int + 1]);
        }
        if fstart + 2 < n {
            let d3u: u32 = s.get_char(fstart + 2) as u32;
            proof {
                assert(fp.len() >= 3);
                assert(fp[2] == s@[fstart as int + 2]);
            }
            if d3u >= 53 {
                f = d1 * 10 + d2 + 1;
            } else {
                f = d1 * 10 + d2;
            }
        } else {
            proof {
                assert(fp.len() == 2);
            }
            f = d1 * 10 + d2;
        }
    } else {
        proof {
            assert(fp.len() == 1);
            assert(fp[0] == s@[fstart as int]);
        }
        f = d1 * 10;
    }
    let m: u64 = val * 100 + f;
    let v: i64 = m as i64;
    if neg {
        Some(-v)
    } else {
        Some(v)
    }
}

fn digit_string(d: u64) -> (r: String)
    requires
        d < 10,
    ensures
        r@ == seq![digit_char(d as int)],
{
    let s: &str = if d == 0 {
        "0"
    } else if d == 1 {
        "1"
    } else if d == 2 {
        "2"
    } else if d == 3 {
        "3"
    } else if d == 4 {
        "4"
    } else if d == 5 {
        "5"
    } else if d == 6 {
        "6"
    } else if d == 7 {
        "7"
    } else if d == 8 {
        "8"
    } else {
        "9"
    };
    proof {
        reveal_strlit("0");
        reveal_strlit("1");
        reveal_strlit("2");
        reveal_strlit("3");
        reveal_strlit("4");
        reveal_strlit("5");
        reveal_strlit("6");
        reveal_strlit("7");
        reveal_strlit("8");
        reveal_strlit("9");
        assert(s@ =~= seq![digit_char(d as int)]);
    }
    String::from_str(s)
}

/// The decimal numeral of `n`.
pub fn u64_to_string(n: u64) -> (r: String)
    ensures
        r@ == dec_str(n as nat),
    decreases n,
{
    if n < 10 {
        digit_string(n)
    } else {
        let mut s = u64_to_string(n / 10);
        let d = digit_string(n % 10);
        s.append(d.as_str());
        proof {
            assert(s@ =~= dec_str(n as nat));
        }
        s
    }
}

/// Two digits, zero-padded.
pub fn two_digit_string(n: u64) -> (r: String)
    requires
        n < 100,
    ensures
        r@ == two_digit_str(n as int),
{
    let mut s = digit_string(n / 10);
    let d = digit_string(n % 10);
    s.append(d.as_str());
    proof {
        assert(s@ =~= two_digit_str(n as int));
    }
    s
}

fn centi_abs_string(m: u64) -> (r: String)
    requires
        m <= 2 * CENTI_LIMIT,
    ensures
        r@ == centi_abs_str(m as int),
{
    let mut s = u64_to_string(m / 100);
    s.append(".");
    let f = two_digit_string(m % 100);
    s.append(f.as_str());
    s
}

/// A hundredths value rendered with two decimal places.
pub fn centi_to_string(c: i64) -> (r: String)
    requires
        -2 * CENTI_LIMIT <= c <= 2 * CENTI_LIMIT,
    ensures
        r@ == centi_str(c as int),
{
    if c >= 0 {
        centi_abs_string(c as u64)
    } else {
        let mut s = String::from_str("-");
        let a = centi_abs_string((-c) as u64);
        s.append(a.as_str());
        s
    }
}

fn trimmed_abs_string(m: u64) -> (r: String)
    requires
        m <= 2 * CENTI_LIMIT,
    ensures
        r@ == trimmed_abs_str(m as int),
{
    if m % 100 == 0 {
        u64_to_string(m / 100)
    } else if m % 10 == 0 {
        let mut s = u64_to_string(m / 100);
        s.append(".");
        let d = digit_string(m % 100 / 10);
        s.append(d.as_str());
        s
    } else {
        centi_abs_string(m)
    }
}

/// A hundredths value in its shortest decimal form.
pub fn trimmed_centi_to_string(c: i64) -> (r: String)
    requires
        -2 * CENTI_LIMIT <= c <= 2 * CENTI_LIMIT,
    ensures
        r@ == trimmed_centi_str(c as int),
{
    if c >= 0 {
        trimmed_abs_string(c as u64)
    } else {
        let mut s = String::from_str("-");
        let a = trimmed_abs_string((-c) as u64);
        s.append(a.as_str());
        s
    }
}

} // verus!
