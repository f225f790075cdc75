//! The sensor's data-line grammar and its verified parser.
//!
//! A data line has the shape
//! `CO2=<digits>,HUM=<digits>.<digits>,TMP=[-]<digits>.<digits>`
//! starting at the first byte; anything after the temperature's last
//! fractional digit (such as a trailing carriage return) is ignored.
//! The grammar is specified over byte sequences with unbounded values;
//! the parser additionally rejects lines whose numbers do not fit the
//! machine representation of a reading.

use crate::reading::{Decimal, DecimalVal, ReadingVal, UDCO2SStat, reading_fits};
use vstd::prelude::*;

verus! {

pub open spec fn is_digit(b: u8) -> bool {
    0x30 <= b && b <= 0x39
}

pub open spec fn digit_val(b: u8) -> int {
    b - 0x30
}

/// Index of the first non-digit byte at or after `i`.
pub open spec fn digits_end(s: Seq<u8>, i: int) -> int
    decreases s.len() - i when 0 <= i <= s.len()
{
    if i < s.len() && is_digit(s[i]) {
        digits_end(s, i + 1)
    } else {
        i
    }
}

/// Value of a run of digit bytes read as a base-10 numeral.
pub open spec fn digits_val(s: Seq<u8>) -> int
    decreases s.len(),
{
    if s.len() == 0 {
        0
    } else {
        digits_val(s.drop_last()) * 10 + digit_val(s.last())
    }
}

/// The literal `CO2=` at position `i`.
pub open spec fn co2_prefix_at(s: Seq<u8>, i: int) -> bool {
    &&& i + 4 <= s.len()
    &&& s[i] == 0x43
    &&& s[i + 1] == 0x4f
    &&& s[i + 2] == 0x32
    &&& s[i + 3] == 0x3d
}

/// The literal `,HUM=` at position `i`.
pub open spec fn hum_sep_at(s: Seq<u8>, i: int) -> bool {
    &&& i + 5 <= s.len()
    &&& s[i] == 0x2c
    &&& s[i + 1] == 0x48
    &&& s[i + 2] == 0x55
    &&& s[i + 3] == 0x4d
    &&& s[i + 4] == 0x3d
}

/// The literal `,TMP=` at position `i`.
pub open spec fn tmp_sep_at(s: Seq<u8>, i: int) -> bool {
    &&& i + 5 <= s.len()
    &&& s[i] == 0x2c
    &&& s[i + 1] == 0x54
    &&& s[i + 2] == 0x4d
    &&& s[i + 3] == 0x50
    &&& s[i + 4] == 0x3d
}

/// Whether the line matches the data-line grammar. Each digit run is
/// maximal, so the decomposition below is the only one possible.
pub open spec fn line_matches(s: Seq<u8>) -> bool {
    let c0 = 4int;
    let c1 = digits_end(s, c0);
    let h0 = c1 + 5;
    let h1 = digits_end(s, h0);
    let hf0 = h1 + 1;
    let hf1 = digits_end(s, hf0);
    let t0 = hf1 + 5;
    let tn = if t0 < s.len() && s[t0] == 0x2d {
        t0 + 1
    } else {
        t0
    };
    let t1 = digits_end(s, tn);
    let tf0 = t1 + 1;
    let tf1 = digits_end(s, tf0);
    &&& co2_prefix_at(s, 0)
    &&& c1 > c0
    &&& hum_sep_at(s, c1)
    &&& h1 > h0
    &&& h1 < s.len() && s[h1] == 0x2e
    &&& hf1 > hf0
    &&& tmp_sep_at(s, hf1)
    &&& t1 > tn
    &&& t1 < s.len() && s[t1] == 0x2e
    &&& tf1 > tf0
}

/// The reading denoted by a line that matches the grammar.
pub open spec fn line_reading(s: Seq<u8>) -> ReadingVal {
    let c0 = 4int;
    let c1 = digits_end(s, c0);
    let h0 = c1 + 5;
    let h1 = digits_end(s, h0);
    let hf0 = h1 + 1;
    let hf1 = digits_end(s, hf0);
    let t0 = hf1 + 5;
    let neg = t0 < s.len() && s[t0] == 0x2d;
    let tn = if neg {
        t0 + 1
    } else {
        t0
    };
    let t1 = digits_end(s, tn);
    let tf0 = t1 + 1;
    let tf1 = digits_end(s, tf0);
    ReadingVal {
        co2ppm: digits_val(s.subrange(c0, c1)),
        humidity: DecimalVal {
            negative: false,
            whole: digits_val(s.subrange(h0, h1)),
            frac: digits_val(s.subrange(hf0, hf1)),
            frac_len: hf1 - hf0,
        },
        temperature: DecimalVal {
            negative: neg,
            whole: digits_val(s.subrange(tn, t1)),
            frac: digits_val(s.subrange(tf0, tf1)),
            frac_len: tf1 - tf0,
        },
    }
}

/// What a line means: `None` for a line that does not match the
/// grammar, otherwise the reading it denotes.
pub open spec fn parse_line_spec(s: Seq<u8>) -> Option<ReadingVal> {
    if line_matches(s) {
        Some(line_reading(s))
    } else {
        None
    }
}

proof fn lemma_digits_end_props(s: Seq<u8>, i: int)
    requires
        0 <= i <= s.len(),
    ensures
        i <= digits_end(s, i) <= s.len(),
        forall|m: int| i <= m < digits_end(s, i) ==> is_digit(s[m]),
        digits_end(s, i) < s.len() ==> !is_digit(s[digits_end(s, i)]),
    decreases s.len() - i,
{
    if i < s.len() && is_digit(s[i]) {
        lemma_digits_end_props(s, i + 1);
    }
}

proof fn lemma_digits_val_nonneg(s: Seq<u8>)
    requires
        forall|m: int| 0 <= m < s.len() ==> is_digit(s[m]),
    ensures
        digits_val(s) >= 0,
    decreases s.len(),
{
    if s.len() > 0 {
        lemma_digits_val_nonneg(s.drop_last());
    }
}

proof fn lemma_digits_val_snoc(s: Seq<u8>, i: int, k: int)
    requires
        0 <= i <= k < s.len(),
    ensures
        digits_val(s.subrange(i, k + 1)) == digits_val(s.subrange(i, k)) * 10 + digit_val(s[k]),
{
    let t = s.subrange(i, k + 1);
    assert(t.drop_last() =~= s.subrange(i, k));
    assert(t.last() == s[k]);
}

proof fn lemma_digits_val_grows(s: Seq<u8>, i: int, k: int, j: int)
    requires
        0 <= i <= k <= j <= s.len(),
        forall|m: int| i <= m < j ==> is_digit(s[m]),
    ensures
        digits_val(s.subrange(i, j)) >= digits_val(s.subrange(i, k)),
    decreases j - k,
{
    if k < j {
        lemma_digits_val_snoc(s, i, k);
        assert(forall|m: int| 0 <= m < s.subrange(i, k).len() ==> is_digit(s.subrange(i, k)[m]));
        lemma_digits_val_nonneg(s.subrange(i, k));
        lemma_digits_val_grows(s, i, k + 1, j);
    }
}

/// Index just past the digit run that starts at `i`.
fn scan_digits(s: &Vec<u8>, i: usize) -> (j: usize)
    requires
        i <= s@.len(),
    ensures
        i <= j <= s@.len(),
        j == digits_end(s@, i as int),
        forall|m: int| i <= m < j ==> is_digit(s@[m]),
        j < s@.len() ==> !is_digit(s@[j as int]),
{
    let mut k = i;
    while k < s.len() && 0x30 <= s[k] && s[k] <= 0x39
        invariant
            i <= k <= s@.len(),
            digits_end(s@, i as int) == digits_end(s@, k as int),
            forall|m: int| i <= m < k ==> is_digit(s@[m]),
        decreases s@.len() - k,
    {
        proof {
            assert(digits_end(s@, k as int) == digits_end(s@, k + 1));
        }
        k = k + 1;
    }
    proof {
        assert(digits_end(s@, k as int) == k as int);
    }
    k
}

/// Value of the digit run `s[i..j]`, or `None` when it exceeds `u64::MAX`.
fn digits_to_u64(s: &Vec<u8>, i: usize, j: usize) -> (r: Option<u64>)
    requires
        i <= j <= s@.len(),
        forall|m: int| i <= m < j ==> is_digit(s@[m]),
    ensures
        match r {
            Some(v) => v as int == digits_val(s@.subrange(i as int, j as int)),
            None => digits_val(s@.subrange(i as int, j as int)) > u64::MAX,
        },
{
    let mut acc: u64 = 0;
    let mut k = i;
    proof {
        assert(s@.subrange(i as int, i as int) =~= Seq::<u8>::empty());
    }
    while k < j
        invariant
            i <= k <= j <= s@.len(),
            forall|m: int| i <= m < j ==> is_digit(s@[m]),
            acc as int == digits_val(s@.subrange(i as int, k as int)),
        decreases j - k,
    {
        let b = s[k];
        let d = (b - 0x30) as u64;
        proof {
            lemma_digits_val_snoc(s@, i as int, k as int);
        }
        if acc > (u64::MAX - d) / 10 {
            proof {
                vstd::arithmetic::div_mod::lemma_fundamental_div_mod((u64::MAX - d) as int, 10);
                assert(acc * 10 + d > u64::MAX);
                lemma_digits_val_grows(s@, i as int, k as int + 1, j as int);
            }
            return None;
        }
        proof {
            vstd::arithmetic::div_mod::lemma_fundamental_div_mod((u64::MAX - d) as int, 10);
            assert(acc * 10 + d <= u64::MAX);
        }
        acc = acc * 10 + d;
        k = k + 1;
    }
    Some(acc)
}

/// Parse one data line. Returns the reading when the line matches the
/// grammar and its numbers fit the machine representation; `None`
/// otherwise.
pub fn parse_line(s: &Vec<u8>) -> (r: Option<UDCO2SStat>)
    ensures
        match r {
            Some(stat) => parse_line_spec(s@) == Some(stat@) && reading_fits(stat@),
            None => match parse_line_spec(s@) {
                Some(v) => !reading_fits(v),
                None => true,
            },
        },
{
    if s.len() < 4 {
        return None;
    }
    if !(s[0] == 0x43 && s[1] == 0x4f && s[2] == 0x32 && s[3] == 0x3d) {
        return None;
    }
    let c1 = scan_digits(s, 4);
    if c1 == 4 {
        return None;
    }
    if s.len() - c1 < 5 {
        return None;
    }
    if !(s[c1] == 0x2c && s[c1 + 1] == 0x48 && s[c1 + 2] == 0x55 && s[c1 + 3] == 0x4d && s[c1 + 4]
        == 0x3d) {
        return None;
    }
    let h0 = c1 + 5;
    let h1 = scan_digits(s, h0);
    if h1 == h0 {
        return None;
    }
    if h1 == s.len() || s[h1] != 0x2e {
        return None;
    }
    let hf0 = h1 + 1;
    let hf1 = scan_digits(s, hf0);
    if hf1 == hf0 {
        return None;
    }
    if s.len() - hf1 < 5 {
        return None;
    }
    if !(s[hf1] == 0x2c && s[hf1 + 1] == 0x54 && s[hf1 + 2] == 0x4d && s[hf1 + 3] == 0x50 && s[hf1
        + 4] == 0x3d) {
        return None;
    }
    let t0 = hf1 + 5;
    let negative = t0 < s.len() && s[t0] == 0x2d;
    let tn = if negative {
        t0 + 1
    } else {
        t0
    };
    let t1 = scan_digits(s, tn);
    if t1 == tn {
        return None;
    }
    if t1 == s.len() || s[t1] != 0x2e {
        return None;
    }
    let tf0 = t1 + 1;
    let tf1 = scan_digits(s, tf0);
    if tf1 == tf0 {
        return None;
    }
    let co2_opt = digits_to_u64(s, 4, c1);
    if co2_opt.is_none() {
        return None;
    }
    let co2_v = co2_opt.unwrap();
    if co2_v > i32::MAX as u64 {
        return None;
    }
    let hw_opt = digits_to_u64(s, h0, h1);
    if hw_opt.is_none() {
        return None;
    }
    let hf_opt = digits_to_u64(s, hf0, hf1);
    if hf_opt.is_none() {
        return None;
    }
    if hf1 - hf0 > 255 {
        return None;
    }
    let tw_opt = digits_to_u64(s, tn, t1);
    if tw_opt.is_none() {
        return None;
    }
    let tf_opt = digits_to_u64(s, tf0, tf1);
    if tf_opt.is_none() {
        return None;
    }
    if tf1 - tf0 > 255 {
        return None;
    }
    let stat = UDCO2SStat {
        co2ppm: co2_v as i32,
        humidity: Decimal {
            negative: false,
            whole: hw_opt.unwrap(),
            frac: hf_opt.unwrap(),
            frac_len: (hf1 - hf0) as u8,
        },
        temperature: Decimal {
            negative,
            whole: tw_opt.unwrap(),
            frac: tf_opt.unwrap(),
            frac_len: (tf1 - tf0) as u8,
        },
    };
    Some(stat)
}

} // verus!
