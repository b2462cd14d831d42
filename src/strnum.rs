//! The coercion of a loosely typed JSON scalar into a number.
//!
//! The service sends numbers sometimes as JSON numbers and sometimes as
//! strings, and now and then puts error text (such as "Negative Tangible
//! Equity") where a number belongs. This module decides, for each scalar,
//! how it is read: as zero, as the number it carries, as the number its text
//! spells, or as not-a-number. The floating-point value itself is formed by
//! the caller from that decision.

use vstd::prelude::*;

use crate::scalar::JsonScalar;

verus! {

pub open spec fn is_digit(c: char) -> bool {
    '0' <= c && c <= '9'
}

pub open spec fn is_sign(c: char) -> bool {
    c == '+' || c == '-'
}

pub open spec fn all_digits(s: Seq<char>) -> bool {
    forall|i: int| 0 <= i < s.len() ==> is_digit(#[trigger] s[i])
}

/// `Digit+ | Digit+ '.' Digit* | Digit* '.' Digit+`
pub open spec fn mantissa(m: Seq<char>) -> bool {
    ||| m.len() > 0 && all_digits(m)
    ||| exists|k: int|
        0 <= k < m.len() && #[trigger] m[k] == '.' && all_digits(m.take(k)) && all_digits(
            m.skip(k + 1),
        ) && m.len() >= 2
}

/// What follows the exponent mark: `Sign? Digit+`
pub open spec fn exponent_digits(e: Seq<char>) -> bool {
    ||| e.len() > 0 && all_digits(e)
    ||| e.len() > 1 && is_sign(e[0]) && all_digits(e.skip(1))
}

pub open spec fn is_exponent_mark(c: char) -> bool {
    c == 'e' || c == 'E'
}

/// `Mantissa ( 'e' Sign? Digit+ )?`, the mark in either case.
pub open spec fn decimal_number(t: Seq<char>) -> bool {
    ||| mantissa(t)
    ||| exists|k: int|
        0 <= k < t.len() && is_exponent_mark(#[trigger] t[k]) && mantissa(t.take(k))
            && exponent_digits(t.skip(k + 1))
}

/// `t` spells `lower` with each letter in either case (`upper` holds the
/// same word in capitals).
pub open spec fn word_either_case(t: Seq<char>, lower: Seq<char>, upper: Seq<char>) -> bool {
    &&& t.len() == lower.len()
    &&& forall|i: int| 0 <= i < t.len() ==> #[trigger] t[i] == lower[i] || t[i] == upper[i]
}

/// A float literal without its sign: `inf`, `infinity`, `nan` in any case,
/// or a decimal number.
pub open spec fn unsigned_float(t: Seq<char>) -> bool {
    ||| word_either_case(t, seq!['i', 'n', 'f'], seq!['I', 'N', 'F'])
    ||| word_either_case(
        t,
        seq!['i', 'n', 'f', 'i', 'n', 'i', 't', 'y'],
        seq!['I', 'N', 'F', 'I', 'N', 'I', 'T', 'Y'],
    )
    ||| word_either_case(t, seq!['n', 'a', 'n'], seq!['N', 'A', 'N'])
    ||| decimal_number(t)
}

/// The text of a 64-bit float in the grammar that Rust's float parser
/// accepts: `Sign? ( 'inf' | 'infinity' | 'nan' | Number )`.
pub open spec fn float_literal(s: Seq<char>) -> bool {
    ||| unsigned_float(s)
    ||| s.len() > 0 && is_sign(s[0]) && unsigned_float(s.drop_first())
}

/// How a scalar in a numeric field is read.
#[derive(Clone, Copy, Debug, PartialEq, Eq, Structural)]
pub enum NumericReading {
    /// Zero: a `null`, or an empty string.
    Zero,
    /// The unsigned integer, as a float.
    Unsigned(u64),
    /// The signed integer, as a float.
    Signed(i64),
    /// The floating-point number, unchanged.
    Float,
    /// The number that the string spells.
    Literal,
    /// Not-a-number: a string that spells no number.
    NotANumber,
}

/// The reading of each scalar.
pub open spec fn reading_of(v: JsonScalar) -> NumericReading {
    match v {
        JsonScalar::Null => NumericReading::Zero,
        JsonScalar::Unsigned(u) => NumericReading::Unsigned(u),
        JsonScalar::Signed(i) => NumericReading::Signed(i),
        JsonScalar::Float => NumericReading::Float,
        JsonScalar::Text(s) => if s@.len() == 0 {
            NumericReading::Zero
        } else if float_literal(s@) {
            NumericReading::Literal
        } else {
            NumericReading::NotANumber
        },
    }
}

/// Integers and floating-point numbers are read as the numbers that were
/// sent, whatever their value.
pub proof fn lemma_numbers_read_as_sent(u: u64, i: i64)
    ensures
        reading_of(JsonScalar::Unsigned(u)) == NumericReading::Unsigned(u),
        reading_of(JsonScalar::Signed(i)) == NumericReading::Signed(i),
        reading_of(JsonScalar::Float) == NumericReading::Float,
{
}

fn chars_of(s: &str) -> (r: Vec<char>)
    ensures
        r@ == s@,
{
    let n = s.unicode_len();
    let mut r: Vec<char> = Vec::new();
    let mut i: usize = 0;
    while i < n
        invariant
            n == s@.len(),
            i <= n,
            r@ == s@.take(i as int),
        decreases n - i,
    {
        r.push(s.get_char(i));
        i = i + 1;
        assert(r@ =~= s@.take(i as int));
    }
    assert(r@ =~= s@);
    r
}

fn char_is_digit(c: char) -> (r: bool)
    ensures
        r == is_digit(c),
{
    '0' <= c && c <= '9'
}

/// The end of the run of digits that starts at `lo`.
fn digits_end(cs: &Vec<char>, lo: usize, hi: usize) -> (p: usize)
    requires
        lo <= hi <= cs@.len(),
    ensures
        lo <= p <= hi,
        all_digits(cs@.subrange(lo as int, p as int)),
        p < hi ==> !is_digit(cs@[p as int]),
{
    let mut p = lo;
    while p < hi && char_is_digit(cs[p])
        invariant
            lo <= p <= hi <= cs@.len(),
            all_digits(cs@.subrange(lo as int, p as int)),
        decreases hi - p,
    {
        p = p + 1;
    }
    p
}

fn is_mantissa(cs: &Vec<char>, lo: usize, hi: usize) -> (r: bool)
    requires
        lo <= hi <= cs@.len(),
    ensures
        r == mantissa(cs@.subrange(lo as int, hi as int)),
{
    let ghost m = cs@.subrange(lo as int, hi as int);
    let p = digits_end(cs, lo, hi);
    let ghost k = p - lo;
    assert(m.take(k) =~= cs@.subrange(lo as int, p as int));
    if p == hi {
        assert(m =~= cs@.subrange(lo as int, p as int));
        if hi == lo {
            assert forall|j: int| 0 <= j < m.len() implies m[j] != '.' by {}
        }
        return hi > lo;
    }
    assert(m[k] == cs@[p as int]);
    // A mantissa that is not all digits has its dot where the leading digits end.
    assert forall|j: int| 0 <= j < m.len() && m[j] == '.' && all_digits(m.take(j)) implies j
        == k by {
        if j < k {
            assert(m.take(k)[j] == m[j]);
        } else if j > k {
            assert(m.take(j)[k] == m[k]);
        }
    }
    assert(!(m.len() > 0 && all_digits(m))) by {
        assert(!is_digit(m[k]));
    }
    if cs[p] != '.' {
        return false;
    }
    let q = digits_end(cs, p + 1, hi);
    if q < hi {
        assert(m.skip(k + 1)[q - p - 1] == cs@[q as int]);
        return false;
    }
    assert(m.skip(k + 1) =~= cs@.subrange(p + 1, q as int));
    hi - lo >= 2
}

fn is_exponent_digits(cs: &Vec<char>, lo: usize, hi: usize) -> (r: bool)
    requires
        lo <= hi <= cs@.len(),
    ensures
        r == exponent_digits(cs@.subrange(lo as int, hi as int)),
{
    let ghost e = cs@.subrange(lo as int, hi as int);
    if lo == hi {
        return false;
    }
    let start = if cs[lo] == '+' || cs[lo] == '-' {
        lo + 1
    } else {
        lo
    };
    if start == hi {
        assert(!is_digit(e[0]));
        return false;
    }
    let p = digits_end(cs, start, hi);
    if p < hi {
        assert(e[p - lo] == cs@[p as int]);
        assert(e[0] == cs@[lo as int]);
        if start == lo {
            assert(!is_sign(e[0]));
        } else {
            assert(e.skip(1)[p - start] == cs@[p as int]);
            assert(!is_digit(e[0]));
        }
        return false;
    }
    if start == lo {
        assert(e =~= cs@.subrange(start as int, p as int));
    } else {
        assert(e.skip(1) =~= cs@.subrange(start as int, p as int));
    }
    true
}

fn is_decimal_number(cs: &Vec<char>, lo: usize, hi: usize) -> (r: bool)
    requires
        lo <= hi <= cs@.len(),
    ensures
        r == decimal_number(cs@.subrange(lo as int, hi as int)),
{
    let ghost t = cs@.subrange(lo as int, hi as int);
    let mut q = lo;
    while q < hi && cs[q] != 'e' && cs[q] != 'E'
        invariant
            lo <= q <= hi <= cs@.len(),
            forall|j: int| lo <= j < q ==> !is_exponent_mark(#[trigger] cs@[j]),
        decreases hi - q,
    {
        q = q + 1;
    }
    let ghost k = q - lo;
    // Any mantissa before a mark lies wholly before the first mark.
    assert forall|j: int|
        0 <= j < t.len() && is_exponent_mark(#[trigger] t[j]) && mantissa(t.take(j)) implies j
        == k by {
        if j > k {
            assert(t.take(j)[k] == t[k]);
            assert(!is_digit(t.take(j)[k]) && t.take(j)[k] != '.');
            if t.take(j).len() > 0 && all_digits(t.take(j)) {
                assert(is_digit(t.take(j)[k]));
            }
            let d = choose|d: int|
                0 <= d < t.take(j).len() && #[trigger] t.take(j)[d] == '.' && all_digits(
                    t.take(j).take(d),
                ) && all_digits(t.take(j).skip(d + 1)) && t.take(j).len() >= 2;
            if k < d {
                assert(t.take(j).take(d)[k] == t[k]);
            } else {
                assert(t.take(j).skip(d + 1)[k - d - 1] == t[k]);
            }
        } else if j < k {
            assert(t[j] == cs@[lo + j]);
        }
    }
    if q == hi {
        assert(forall|j: int| 0 <= j < t.len() ==> !is_exponent_mark(#[trigger] t[j])) by {
            assert forall|j: int| 0 <= j < t.len() implies !is_exponent_mark(#[trigger] t[j]) by {
                assert(t[j] == cs@[lo + j]);
            }
        }
        return is_mantissa(cs, lo, hi);
    }
    assert(t[k] == cs@[q as int]);
    assert(t.take(k) =~= cs@.subrange(lo as int, q as int));
    assert(t.skip(k + 1) =~= cs@.subrange(q + 1, hi as int));
    let head = is_mantissa(cs, lo, q);
    let tail = is_exponent_digits(cs, q + 1, hi);
    if !(head && tail) {
        // A mantissa cannot hold the exponent mark.
        assert(!mantissa(t)) by {
            assert(!is_digit(t[k]) && t[k] != '.');
            if t.len() > 0 && all_digits(t) {
                assert(is_digit(t[k]));
            }
            if mantissa(t) {
                let d = choose|d: int|
                    0 <= d < t.len() && #[trigger] t[d] == '.' && all_digits(t.take(d))
                        && all_digits(t.skip(d + 1)) && t.len() >= 2;
                if k < d {
                    assert(t.take(d)[k] == t[k]);
                } else {
                    assert(t.skip(d + 1)[k - d - 1] == t[k]);
                }
            }
        }
    }
    head && tail
}

fn is_word(cs: &Vec<char>, lo: usize, hi: usize, lower: &Vec<char>, upper: &Vec<char>) -> (r:
    bool)
    requires
        lo <= hi <= cs@.len(),
        lower@.len() == upper@.len(),
    ensures
        r == word_either_case(cs@.subrange(lo as int, hi as int), lower@, upper@),
{
    let ghost t = cs@.subrange(lo as int, hi as int);
    if hi - lo != lower.len() {
        return false;
    }
    let mut i: usize = 0;
    while i < lower.len()
        invariant
            hi - lo == lower@.len() == upper@.len(),
            lo <= hi <= cs@.len(),
            t == cs@.subrange(lo as int, hi as int),
            i <= lower@.len(),
            forall|j: int| 0 <= j < i ==> #[trigger] t[j] == lower@[j] || t[j] == upper@[j],
        decreases lower@.len() - i,
    {
        let c = cs[lo + i];
        if c != lower[i] && c != upper[i] {
            assert(t[i as int] == c);
            return false;
        }
        i = i + 1;
    }
    true
}

fn is_unsigned_float(cs: &Vec<char>, lo: usize, hi: usize) -> (r: bool)
    requires
        lo <= hi <= cs@.len(),
    ensures
        r == unsigned_float(cs@.subrange(lo as int, hi as int)),
{
    let inf_lower = vec!['i', 'n', 'f'];
    let inf_upper = vec!['I', 'N', 'F'];
    let infinity_lower = vec!['i', 'n', 'f', 'i', 'n', 'i', 't', 'y'];
    let infinity_upper = vec!['I', 'N', 'F', 'I', 'N', 'I', 'T', 'Y'];
    let nan_lower = vec!['n', 'a', 'n'];
    let nan_upper = vec!['N', 'A', 'N'];
    assert(inf_lower@ =~= seq!['i', 'n', 'f']);
    assert(inf_upper@ =~= seq!['I', 'N', 'F']);
    assert(infinity_lower@ =~= seq!['i', 'n', 'f', 'i', 'n', 'i', 't', 'y']);
    assert(infinity_upper@ =~= seq!['I', 'N', 'F', 'I', 'N', 'I', 'T', 'Y']);
    assert(nan_lower@ =~= seq!['n', 'a', 'n']);
    assert(nan_upper@ =~= seq!['N', 'A', 'N']);
    is_word(cs, lo, hi, &inf_lower, &inf_upper) || is_word(
        cs,
        lo,
        hi,
        &infinity_lower,
        &infinity_upper,
    ) || is_word(cs, lo, hi, &nan_lower, &nan_upper) || is_decimal_number(cs, lo, hi)
}

/// Whether `s` is the text of a 64-bit float, in the grammar of Rust's float
/// parser.
pub fn is_float_literal(s: &str) -> (r: bool)
    ensures
        r == float_literal(s@),
{
    let cs = chars_of(s);
    let n = cs.len();
    assert(cs@.subrange(0, n as int) =~= s@);
    if is_unsigned_float(&cs, 0, n) {
        return true;
    }
    if n > 0 && (cs[0] == '+' || cs[0] == '-') {
        assert(cs@.subrange(1, n as int) =~= s@.drop_first());
        return is_unsigned_float(&cs, 1, n);
    }
    false
}

/// Decides how a scalar in a numeric field is read: `null` and the empty
/// string as zero, integers and floats as themselves, a string as the number
/// it spells, and any other string as not-a-number.
pub fn numeric_reading(v: &JsonScalar) -> (r: NumericReading)
    ensures
        r == reading_of(*v),
{
    match v {
        JsonScalar::Null => NumericReading::Zero,
        JsonScalar::Unsigned(u) => NumericReading::Unsigned(*u),
        JsonScalar::Signed(i) => NumericReading::Signed(*i),
        JsonScalar::Float => NumericReading::Float,
        JsonScalar::Text(s) => {
            if s.unicode_len() == 0 {
                NumericReading::Zero
            } else if is_float_literal(s.as_str()) {
                NumericReading::Literal
            } else {
                NumericReading::NotANumber
            }
        },
    }
}

} // verus!
