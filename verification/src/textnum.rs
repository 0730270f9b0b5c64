//! Verified text utilities: decimal number parsing with the exact
//! acceptance rules of std's integer parsers, the syntactic check for
//! floating-point literals, and character-wise string equality.
//!
//! Numeric metadata values travel through the library as text; the
//! resolver decides from these predicates which raw value wins a
//! fallback chain, and only the unverified host shell turns the winning
//! text into a machine float.

use vstd::prelude::*;
use vstd::string::StrSliceExecFns;

verus! {

/// One decimal digit.
pub open spec fn is_digit_char(c: char) -> bool {
    48 <= c as u32 && c as u32 <= 57
}

/// The numeric value of a decimal digit.
pub open spec fn digit_val(c: char) -> int {
    c as u32 - 48
}

/// Every character of `s` is a decimal digit.
pub open spec fn all_digits(s: Seq<char>) -> bool {
    forall|i: int| 0 <= i < s.len() ==> is_digit_char(#[trigger] s[i])
}

/// The value of a digit string read in base ten.
pub open spec fn digits_val(s: Seq<char>) -> int
    decreases s.len(),
{
    if s.len() == 0 {
        0
    } else {
        digits_val(s.drop_last()) * 10 + digit_val(s.last())
    }
}

/// A digit string's value is at least the value of any of its prefixes.
pub proof fn lemma_digits_val_prefix(s: Seq<char>, k: int)
    requires
        all_digits(s),
        0 <= k <= s.len(),
    ensures
        digits_val(s) >= digits_val(s.subrange(0, k)),
        digits_val(s) >= 0,
    decreases s.len() - k,
{
    if k == s.len() {
        assert(s.subrange(0, k) =~= s);
        lemma_digits_val_nonneg(s);
    } else {
        lemma_digits_val_prefix(s, k + 1);
        let p = s.subrange(0, k + 1);
        assert(p.drop_last() =~= s.subrange(0, k));
        lemma_digits_val_nonneg(s.subrange(0, k));
        assert(digits_val(p) == digits_val(s.subrange(0, k)) * 10 + digit_val(s[k]));
        assert(digit_val(s[k]) >= 0);
        assert(digits_val(p) >= digits_val(s.subrange(0, k)));
    }
}

/// The value of a digit string is never negative.
pub proof fn lemma_digits_val_nonneg(s: Seq<char>)
    requires
        all_digits(s),
    ensures
        digits_val(s) >= 0,
    decreases s.len(),
{
    if s.len() > 0 {
        assert(all_digits(s.drop_last()));
        lemma_digits_val_nonneg(s.drop_last());
    }
}

/// What parsing a bare digit string as a `u64` yields: the base-ten
/// value when the string is nonempty, all digits, and the value fits.
pub open spec fn spec_parse_digits(digs: Seq<char>) -> Option<u64> {
    if digs.len() == 0 || !all_digits(digs) {
        None
    } else if digits_val(digs) > u64::MAX {
        None
    } else {
        Some(digits_val(digs) as u64)
    }
}

/// Parses the suffix of `s` that starts at `start` as a bare digit string.
fn parse_digits_u64(s: &str, start: usize) -> (r: Option<u64>)
    requires
        start <= s@.len(),
    ensures
        r == spec_parse_digits(s@.subrange(start as int, s@.len() as int)),
{
    let ghost digs = s@.subrange(start as int, s@.len() as int);
    let n = s.unicode_len();
    if start == n {
        return None;
    }
    let mut i: usize = start;
    let mut acc: u64 = 0;
    while i < n
        invariant
            start <= i <= n,
            n == s@.len(),
            digs == s@.subrange(start as int, s@.len() as int),
            all_digits(digs.subrange(0, i - start)),
            acc == digits_val(digs.subrange(0, i - start)),
        decreases n - i,
    {
        let c = s.get_char(i);
        proof {
            assert(digs[i - start] == s@[i as int]);
        }
        let cv = c as u32;
        if cv < 48 || cv > 57 {
            proof {
                assert(!is_digit_char(digs[i - start]));
                assert(!all_digits(digs));
            }
            return None;
        }
        let d = (cv - 48) as u64;
        let ghost prefix = digs.subrange(0, i - start);
        let ghost prefix1 = digs.subrange(0, i - start + 1);
        proof {
            assert(prefix1.drop_last() =~= prefix);
            assert(prefix1.last() == digs[i - start]);
            assert(digits_val(prefix1) == digits_val(prefix) * 10 + digit_val(digs[i - start]));
            assert(all_digits(prefix1));
        }
        if acc > 1844674407370955161u64 || (acc == 1844674407370955161u64 && d > 5) {
            proof {
                assert(digits_val(prefix1) > u64::MAX);
                if all_digits(digs) {
                    lemma_digits_val_prefix(digs, i - start + 1);
                    assert(digits_val(digs) > u64::MAX);
                }
            }
            return None;
        }
        acc = acc * 10 + d;
        i += 1;
    }
    proof {
        assert(digs.subrange(0, i - start) =~= digs);
    }
    Some(acc)
}

/// What parsing text as a `u64` yields: an optional leading `+`, then a
/// nonempty digit string whose value fits.
pub open spec fn spec_parse_u64(s: Seq<char>) -> Option<u64> {
    if s.len() > 0 && s[0] == '+' {
        spec_parse_digits(s.subrange(1, s.len() as int))
    } else {
        spec_parse_digits(s)
    }
}

/// Parses text as a `u64`, accepting exactly what std's parser accepts.
pub fn parse_u64_str(s: &str) -> (r: Option<u64>)
    ensures
        r == spec_parse_u64(s@),
{
    let n = s.unicode_len();
    if n > 0 && s.get_char(0) == '+' {
        parse_digits_u64(s, 1)
    } else {
        proof {
            assert(s@.subrange(0, s@.len() as int) =~= s@);
        }
        parse_digits_u64(s, 0)
    }
}

/// What parsing text as a `u8` yields.
pub open spec fn spec_parse_u8(s: Seq<char>) -> Option<u8> {
    match spec_parse_u64(s) {
        Some(v) => if v <= 255 {
            Some(v as u8)
        } else {
            None
        },
        None => None,
    }
}

/// Parses text as a `u8`, accepting exactly what std's parser accepts.
pub fn parse_u8_str(s: &str) -> (r: Option<u8>)
    ensures
        r == spec_parse_u8(s@),
{
    match parse_u64_str(s) {
        Some(v) => if v <= 255 {
            Some(v as u8)
        } else {
            None
        },
        None => None,
    }
}

/// What parsing text as an `i8` yields: an optional sign, then a
/// nonempty digit string whose signed value fits.
pub open spec fn spec_parse_i8(s: Seq<char>) -> Option<i8> {
    if s.len() > 0 && s[0] == '-' {
        match spec_parse_digits(s.subrange(1, s.len() as int)) {
            Some(v) => if v <= 128 {
                Some((-(v as int)) as i8)
            } else {
                None
            },
            None => None,
        }
    } else {
        match spec_parse_u64(s) {
            Some(v) => if v <= 127 {
                Some(v as i8)
            } else {
                None
            },
            None => None,
        }
    }
}

/// Parses text as an `i8`, accepting exactly what std's parser accepts.
pub fn parse_i8_str(s: &str) -> (r: Option<i8>)
    ensures
        r == spec_parse_i8(s@),
{
    let n = s.unicode_len();
    if n > 0 && s.get_char(0) == '-' {
        match parse_digits_u64(s, 1) {
            Some(v) => if v <= 128 {
                let neg = -(v as i64);
                proof {
                    assert(-128 <= neg <= 0);
                }
                Some(neg as i8)
            } else {
                None
            },
            None => None,
        }
    } else {
        match parse_u64_str(s) {
            Some(v) => if v <= 127 {
                Some(v as i8)
            } else {
                None
            },
            None => None,
        }
    }
}

/// Lower-cases the six letters that occur in float keywords.
pub open spec fn lower_key_char(c: char) -> char {
    if c == 'I' {
        'i'
    } else if c == 'N' {
        'n'
    } else if c == 'F' {
        'f'
    } else if c == 'T' {
        't'
    } else if c == 'Y' {
        'y'
    } else if c == 'A' {
        'a'
    } else {
        c
    }
}

/// The suffix of `s` from `start` equals `lit` up to ASCII case.
pub open spec fn ci_tail_is(s: Seq<char>, start: int, lit: Seq<char>) -> bool {
    s.len() - start == lit.len() && (forall|j: int|
        0 <= j < lit.len() ==> lower_key_char(#[trigger] s[start + j]) == lit[j])
}

/// Compares the suffix of `s` from `start` with `lit`, up to ASCII case.
fn tail_ci_eq(s: &str, start: usize, lit: &str) -> (r: bool)
    requires
        start <= s@.len(),
    ensures
        r == ci_tail_is(s@, start as int, lit@),
{
    let n = s.unicode_len();
    let m = lit.unicode_len();
    if n - start != m {
        return false;
    }
    let mut j: usize = 0;
    while j < m
        invariant
            0 <= j <= m,
            n == s@.len(),
            m == lit@.len(),
            n - start == m,
            forall|j2: int| 0 <= j2 < j ==> lower_key_char(#[trigger] s@[start + j2]) == lit@[j2],
        decreases m - j,
    {
        let c = s.get_char(start + j);
        let lc = if c == 'I' {
            'i'
        } else if c == 'N' {
            'n'
        } else if c == 'F' {
            'f'
        } else if c == 'T' {
            't'
        } else if c == 'Y' {
            'y'
        } else if c == 'A' {
            'a'
        } else {
            c
        };
        if lc != lit.get_char(j) {
            return false;
        }
        j += 1;
    }
    true
}

/// The first position at or after `pos` whose character is not a digit.
pub open spec fn digits_end_at(s: Seq<char>, pos: int) -> int
    decreases s.len() - pos when 0 <= pos <= s.len()
{
    if pos >= s.len() {
        pos
    } else if is_digit_char(s[pos]) {
        digits_end_at(s, pos + 1)
    } else {
        pos
    }
}

/// Scans past decimal digits, starting at `pos`.
fn digits_end(s: &str, pos: usize) -> (r: usize)
    requires
        pos <= s@.len(),
    ensures
        r == digits_end_at(s@, pos as int),
        pos <= r <= s@.len(),
{
    let n = s.unicode_len();
    let mut i: usize = pos;
    while i < n
        invariant
            pos <= i <= n,
            n == s@.len(),
            digits_end_at(s@, pos as int) == digits_end_at(s@, i as int),
        decreases n - i,
    {
        let cv = s.get_char(i) as u32;
        if cv < 48 || cv > 57 {
            return i;
        }
        i += 1;
    }
    i
}

/// The mantissa-and-exponent shape of a float literal, read from `start`.
pub open spec fn spec_float_number_at(s: Seq<char>, start: int) -> bool {
    let n = s.len() as int;
    let ie = digits_end_at(s, start);
    let has_dot = ie < n && s[ie] == '.';
    let after = if has_dot {
        digits_end_at(s, ie + 1)
    } else {
        ie
    };
    let mant_ok = ie > start || (has_dot && after > ie + 1);
    mant_ok && (after == n || ((s[after] == 'e' || s[after] == 'E') && {
        let es = if after + 1 < n && (s[after + 1] == '+' || s[after + 1] == '-') {
            after + 2
        } else {
            after + 1
        };
        let ee = digits_end_at(s, es);
        ee > es && ee == n
    }))
}

/// The body of a float literal: a keyword or a number.
pub open spec fn spec_float_body_at(s: Seq<char>, start: int) -> bool {
    ci_tail_is(s, start, "inf"@) || ci_tail_is(s, start, "infinity"@) || ci_tail_is(s, start, "nan"@)
        || spec_float_number_at(s, start)
}

/// Text that std's `f64` parser accepts: an optional sign, then `inf`,
/// `infinity` or `nan` up to case, or a decimal number with optional
/// fraction and exponent.
pub open spec fn spec_is_float_text(s: Seq<char>) -> bool {
    let start: int = if s.len() > 0 && (s[0] == '+' || s[0] == '-') {
        1
    } else {
        0
    };
    spec_float_body_at(s, start)
}

/// Decides whether std's `f64` parser would accept `s`.
pub fn is_float_text(s: &str) -> (r: bool)
    ensures
        r == spec_is_float_text(s@),
{
    let n = s.unicode_len();
    let start: usize = if n > 0 && {
        let c = s.get_char(0);
        c == '+' || c == '-'
    } {
        1
    } else {
        0
    };
    if tail_ci_eq(s, start, "inf") || tail_ci_eq(s, start, "infinity") || tail_ci_eq(s, start, "nan") {
        return true;
    }
    let ie = digits_end(s, start);
    let has_dot = ie < n && s.get_char(ie) == '.';
    let after = if has_dot {
        digits_end(s, ie + 1)
    } else {
        ie
    };
    let mant_ok = ie > start || (has_dot && after > ie + 1);
    if !mant_ok {
        return false;
    }
    if after == n {
        return true;
    }
    let ac = s.get_char(after);
    if !(ac == 'e' || ac == 'E') {
        return false;
    }
    let es = if after + 1 < n && {
        let sc = s.get_char(after + 1);
        sc == '+' || sc == '-'
    } {
        after + 2
    } else {
        after + 1
    };
    let ee = digits_end(s, es);
    ee > es && ee == n
}

/// Compares two strings character by character.
pub fn str_eq(a: &str, b: &str) -> (r: bool)
    ensures
        r == (a@ == b@),
{
    let na = a.unicode_len();
    let nb = b.unicode_len();
    if na != nb {
        return false;
    }
    let mut i: usize = 0;
    while i < na
        invariant
            0 <= i <= na,
            na == a@.len(),
            nb == b@.len(),
            na == nb,
            forall|j: int| 0 <= j < i ==> a@[j] == b@[j],
        decreases na - i,
    {
        if a.get_char(i) != b.get_char(i) {
            return false;
        }
        i += 1;
    }
    proof {
        assert(a@ =~= b@);
    }
    true
}

} // verus!
