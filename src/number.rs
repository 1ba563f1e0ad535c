//! Numeric literals carried as JSON strings: the grammar of the decimal
//! integer and floating-point literals accepted for numeric fields, and their
//! values. Literals are read from the UTF-8 bytes of the string; every
//! accepted literal is ASCII, so no other byte ever matches.
use vstd::prelude::*;
use vstd::string::StringSliceAdditionalSpecFns;

verus! {

pub open spec fn is_digit(c: u8) -> bool {
    48 <= c && c <= 57
}

pub open spec fn all_digits(t: Seq<u8>) -> bool {
    forall|i: int| 0 <= i < t.len() ==> is_digit(#[trigger] t[i])
}

/// The value of a run of decimal digits, most significant first.
pub open spec fn digits_value(t: Seq<u8>) -> nat
    decreases t.len(),
{
    if t.len() == 0 {
        0
    } else {
        digits_value(t.drop_last()) * 10 + (t.last() - 48) as nat
    }
}

/// A signed decimal integer literal: an optional `+` or `-`, then one or
/// more digits.
pub open spec fn signed_literal(t: Seq<u8>) -> Option<int> {
    if t.len() > 0 && t[0] == 45 {
        let d = t.drop_first();
        if d.len() > 0 && all_digits(d) {
            Some(-(digits_value(d) as int))
        } else {
            None
        }
    } else {
        unsigned_literal(t)
    }
}

/// An unsigned decimal integer literal: an optional `+`, then one or more
/// digits.
pub open spec fn unsigned_literal(t: Seq<u8>) -> Option<int> {
    let d = if t.len() > 0 && t[0] == 43 {
        t.drop_first()
    } else {
        t
    };
    if d.len() > 0 && all_digits(d) {
        Some(digits_value(d) as int)
    } else {
        None
    }
}

pub open spec fn i64_of(t: Seq<u8>) -> Option<i64> {
    match signed_literal(t) {
        Some(v) => if i64::MIN <= v && v <= i64::MAX {
            Some(v as i64)
        } else {
            None
        },
        None => None,
    }
}

pub open spec fn u64_of(t: Seq<u8>) -> Option<u64> {
    match unsigned_literal(t) {
        Some(v) => if v <= u64::MAX {
            Some(v as u64)
        } else {
            None
        },
        None => None,
    }
}

pub open spec fn u32_of(t: Seq<u8>) -> Option<u32> {
    match unsigned_literal(t) {
        Some(v) => if v <= u32::MAX {
            Some(v as u32)
        } else {
            None
        },
        None => None,
    }
}

pub open spec fn is_sign(c: u8) -> bool {
    c == 43 || c == 45
}

/// `c` is the lower-case ASCII letter `l` or its upper-case form.
pub open spec fn letter(c: u8, l: u8) -> bool {
    c == l || c == l - 32
}

/// `inf`, `infinity` or `nan`, in any mix of cases.
pub open spec fn is_special(t: Seq<u8>) -> bool {
    ||| (t.len() == 3 && letter(t[0], 105) && letter(t[1], 110) && letter(t[2], 102))
    ||| (t.len() == 8 && letter(t[0], 105) && letter(t[1], 110) && letter(t[2], 102)
        && letter(t[3], 105) && letter(t[4], 110) && letter(t[5], 105) && letter(t[6], 116)
        && letter(t[7], 121))
    ||| (t.len() == 3 && letter(t[0], 110) && letter(t[1], 97) && letter(t[2], 110))
}

/// Digits with at most one `.` among them, and at least one digit.
pub open spec fn is_mantissa(m: Seq<u8>) -> bool {
    ||| (m.len() > 0 && all_digits(m))
    ||| exists|p: int|
        0 <= p < m.len() && m.len() >= 2 && m[p] == 46 && all_digits(#[trigger] m.subrange(0, p))
            && all_digits(m.subrange(p + 1, m.len() as int))
}

pub open spec fn is_exp_mark(c: u8) -> bool {
    c == 101 || c == 69
}

/// The part after the exponent mark: an optional sign, then digits.
pub open spec fn is_exponent(x: Seq<u8>) -> bool {
    let d = if x.len() > 0 && is_sign(x[0]) {
        x.drop_first()
    } else {
        x
    };
    d.len() > 0 && all_digits(d)
}

/// A mantissa, optionally followed by an exponent mark and an exponent.
pub open spec fn is_decimal(t: Seq<u8>) -> bool {
    exists|k: int|
        0 <= k <= t.len() && #[trigger] is_mantissa(t.subrange(0, k)) && (k == t.len() || (
        is_exp_mark(t[k]) && is_exponent(t.subrange(k + 1, t.len() as int))))
}

/// A floating-point literal: an optional sign, then a decimal number or one
/// of the words `inf`, `infinity`, `nan` in any case.
pub open spec fn is_float_literal(t: Seq<u8>) -> bool {
    let u = if t.len() > 0 && is_sign(t[0]) {
        t.drop_first()
    } else {
        t
    };
    is_special(u) || is_decimal(u)
}

proof fn lemma_digits_prefix(t: Seq<u8>, k: int)
    requires
        0 <= k <= t.len(),
        all_digits(t),
    ensures
        digits_value(t.subrange(0, k)) <= digits_value(t),
    decreases t.len(),
{
    if k < t.len() {
        assert(t.drop_last().subrange(0, k) =~= t.subrange(0, k));
        lemma_digits_prefix(t.drop_last(), k);
    } else {
        assert(t.subrange(0, k) =~= t);
    }
}

/// Whether every byte of `b[lo..hi]` is a digit.
fn digits_between(b: &[u8], lo: usize, hi: usize) -> (r: bool)
    requires
        lo <= hi <= b@.len(),
    ensures
        r == all_digits(b@.subrange(lo as int, hi as int)),
{
    let mut i = lo;
    while i < hi
        invariant
            lo <= i <= hi <= b@.len(),
            forall|j: int| lo <= j < i ==> is_digit(#[trigger] b@[j]),
        decreases hi - i,
    {
        if b[i] < 48 || b[i] > 57 {
            assert(!is_digit(b@.subrange(lo as int, hi as int)[i - lo]));
            return false;
        }
        i += 1;
    }
    assert forall|j: int| 0 <= j < hi - lo implies is_digit(
        #[trigger] b@.subrange(lo as int, hi as int)[j],
    ) by {
        assert(is_digit(b@[lo + j]));
    }
    true
}

/// The first position in `b[lo..hi]` that holds `x` or `y`, or `hi`.
fn first_of(b: &[u8], lo: usize, hi: usize, x: u8, y: u8) -> (k: usize)
    requires
        lo <= hi <= b@.len(),
    ensures
        lo <= k <= hi,
        forall|j: int| lo <= j < k ==> b@[j] != x && b@[j] != y,
        k < hi ==> b@[k as int] == x || b@[k as int] == y,
{
    let mut i = lo;
    while i < hi
        invariant
            lo <= i <= hi <= b@.len(),
            forall|j: int| lo <= j < i ==> b@[j] != x && b@[j] != y,
        decreases hi - i,
    {
        if b[i] == x || b[i] == y {
            return i;
        }
        i += 1;
    }
    hi
}

/// The value of the digits `b[lo..]`, when they are one or more digits and
/// their value is at most `limit`.
fn magnitude(b: &[u8], lo: usize, limit: u64) -> (r: Option<u64>)
    requires
        lo <= b@.len(),
    ensures
        ({
            let d = b@.subrange(lo as int, b@.len() as int);
            &&& r is Some <==> (d.len() > 0 && all_digits(d) && digits_value(d) <= limit)
            &&& r matches Some(v) ==> v == digits_value(d)
        }),
{
    let n = b.len();
    let ghost d = b@.subrange(lo as int, n as int);
    if lo >= n {
        return None;
    }
    let mut acc: u64 = 0;
    let mut i = lo;
    while i < n
        invariant
            lo <= i <= n,
            n == b@.len(),
            d == b@.subrange(lo as int, n as int),
            all_digits(b@.subrange(lo as int, i as int)),
            acc == digits_value(b@.subrange(lo as int, i as int)),
            acc <= limit,
        decreases n - i,
    {
        let c = b[i];
        if c < 48 || c > 57 {
            assert(!is_digit(d[i - lo]));
            return None;
        }
        let v: u64 = (c - 48) as u64;
        let ghost next = b@.subrange(lo as int, i + 1);
        assert(next.drop_last() =~= b@.subrange(lo as int, i as int));
        if v > limit || acc > (limit - v) / 10 {
            assert(acc * 10 + v > limit) by (nonlinear_arith)
                requires
                    v > limit || acc > (limit - v) / 10,
                    acc >= 0,
            ;
            proof {
                if all_digits(d) {
                    assert(d.subrange(0, i + 1 - lo) =~= next);
                    lemma_digits_prefix(d, i + 1 - lo);
                }
            }
            return None;
        }
        assert(acc * 10 + v <= limit) by (nonlinear_arith)
            requires
                acc <= (limit - v) / 10,
                v <= limit,
        ;
        acc = acc * 10 + v;
        i += 1;
    }
    assert(b@.subrange(lo as int, i as int) =~= d);
    Some(acc)
}

/// Reads a signed 64-bit integer from a decimal literal.
pub fn parse_i64(s: &str) -> (r: Option<i64>)
    ensures
        r == i64_of(s.spec_bytes()),
{
    let b = s.as_bytes();
    let n = b.len();
    if n > 0 && b[0] == 45 {
        assert(b@.subrange(1, n as int) =~= b@.drop_first());
        match magnitude(b, 1, 9223372036854775808) {
            Some(m) => {
                if m == 9223372036854775808 {
                    Some(i64::MIN)
                } else {
                    Some(-(m as i64))
                }
            },
            None => None,
        }
    } else {
        let lo: usize = if n > 0 && b[0] == 43 {
            1
        } else {
            0
        };
        assert(lo == 1 ==> b@.subrange(1, n as int) =~= b@.drop_first());
        assert(lo == 0 ==> b@.subrange(0, n as int) =~= b@);
        match magnitude(b, lo, 9223372036854775807) {
            Some(m) => Some(m as i64),
            None => None,
        }
    }
}

/// Reads an unsigned integer no greater than `limit` from a decimal literal.
fn parse_unsigned(s: &str, limit: u64) -> (r: Option<u64>)
    ensures
        r is Some <==> (unsigned_literal(s.spec_bytes()) matches Some(v) && v <= limit),
        r matches Some(v) ==> unsigned_literal(s.spec_bytes()) == Some(v as int),
{
    let b = s.as_bytes();
    let n = b.len();
    let lo: usize = if n > 0 && b[0] == 43 {
        1
    } else {
        0
    };
    assert(lo == 1 ==> b@.subrange(1, n as int) =~= b@.drop_first());
    assert(lo == 0 ==> b@.subrange(0, n as int) =~= b@);
    magnitude(b, lo, limit)
}

/// Reads an unsigned 64-bit integer from a decimal literal.
pub fn parse_u64(s: &str) -> (r: Option<u64>)
    ensures
        r == u64_of(s.spec_bytes()),
{
    parse_unsigned(s, u64::MAX)
}

/// Reads an unsigned 32-bit integer from a decimal literal.
pub fn parse_u32(s: &str) -> (r: Option<u32>)
    ensures
        r == u32_of(s.spec_bytes()),
{
    match parse_unsigned(s, 4294967295) {
        Some(v) => Some(v as u32),
        None => None,
    }
}

proof fn lemma_mantissa_bytes(m: Seq<u8>)
    requires
        is_mantissa(m),
    ensures
        forall|i: int| 0 <= i < m.len() ==> is_digit(#[trigger] m[i]) || m[i] == 46,
{
    if !(m.len() > 0 && all_digits(m)) {
        let p = choose|p: int|
            0 <= p < m.len() && m.len() >= 2 && m[p] == 46 && all_digits(
                #[trigger] m.subrange(0, p),
            ) && all_digits(m.subrange(p + 1, m.len() as int));
        assert forall|i: int| 0 <= i < m.len() implies is_digit(#[trigger] m[i]) || m[i] == 46 by {
            if i < p {
                assert(is_digit(m.subrange(0, p)[i]));
            } else if i > p {
                assert(is_digit(m.subrange(p + 1, m.len() as int)[i - p - 1]));
            }
        }
    }
}

fn is_letter(c: u8, l: u8) -> (r: bool)
    requires
        32 <= l,
    ensures
        r == letter(c, l),
{
    c == l || c == l - 32
}

/// Whether `b[lo..hi]` is one of the words `inf`, `infinity`, `nan`.
fn special_between(b: &[u8], lo: usize, hi: usize) -> (r: bool)
    requires
        lo <= hi <= b@.len(),
    ensures
        r == is_special(b@.subrange(lo as int, hi as int)),
{
    let len = hi - lo;
    if len == 3 {
        (is_letter(b[lo], 105) && is_letter(b[lo + 1], 110) && is_letter(b[lo + 2], 102)) || (
        is_letter(b[lo], 110) && is_letter(b[lo + 1], 97) && is_letter(b[lo + 2], 110))
    } else if len == 8 {
        is_letter(b[lo], 105) && is_letter(b[lo + 1], 110) && is_letter(b[lo + 2], 102)
            && is_letter(b[lo + 3], 105) && is_letter(b[lo + 4], 110) && is_letter(b[lo + 5], 105)
            && is_letter(b[lo + 6], 116) && is_letter(b[lo + 7], 121)
    } else {
        false
    }
}

/// Whether `b[lo..hi]` is a mantissa: digits around at most one `.`.
fn mantissa_between(b: &[u8], lo: usize, hi: usize) -> (r: bool)
    requires
        lo <= hi <= b@.len(),
    ensures
        r == is_mantissa(b@.subrange(lo as int, hi as int)),
{
    let ghost m = b@.subrange(lo as int, hi as int);
    let p = first_of(b, lo, hi, 46, 46);
    if p == hi {
        let r = hi > lo && digits_between(b, lo, hi);
        proof {
            assert forall|q: int|
                0 <= q < m.len() && m.len() >= 2 && m[q] == 46 implies !all_digits(
                #[trigger] m.subrange(0, q),
            ) by {
                assert(b@[lo + q] != 46);
            }
        }
        r
    } else {
        let r = hi - lo >= 2 && digits_between(b, lo, p) && digits_between(b, p + 1, hi);
        proof {
            let pp = p - lo;
            assert(m.subrange(0, pp) =~= b@.subrange(lo as int, p as int));
            assert(m.subrange(pp + 1, m.len() as int) =~= b@.subrange(p + 1, hi as int));
            assert(!is_digit(m[pp]));
            if !r {
                assert forall|q: int|
                    0 <= q < m.len() && m.len() >= 2 && m[q] == 46 implies !(all_digits(
                    #[trigger] m.subrange(0, q),
                ) && all_digits(m.subrange(q + 1, m.len() as int))) by {
                    if q < pp {
                        assert(b@[lo + q] != 46);
                    } else if q > pp {
                        assert(!is_digit(m.subrange(0, q)[pp]));
                    }
                }
            }
        }
        r
    }
}

/// Whether `b[lo..hi]` is an exponent: an optional sign, then digits.
fn exponent_between(b: &[u8], lo: usize, hi: usize) -> (r: bool)
    requires
        lo <= hi <= b@.len(),
    ensures
        r == is_exponent(b@.subrange(lo as int, hi as int)),
{
    let signed = hi > lo && (b[lo] == 43 || b[lo] == 45);
    let d: usize = if signed {
        lo + 1
    } else {
        lo
    };
    assert(signed ==> b@.subrange(lo + 1, hi as int) =~= b@.subrange(
        lo as int,
        hi as int,
    ).drop_first());
    hi > d && digits_between(b, d, hi)
}

/// Whether `s` is a floating-point literal.
pub fn is_float_text(s: &str) -> (r: bool)
    ensures
        r == is_float_literal(s.spec_bytes()),
{
    let b = s.as_bytes();
    let n = b.len();
    let lo: usize = if n > 0 && (b[0] == 43 || b[0] == 45) {
        1
    } else {
        0
    };
    let ghost u = b@.subrange(lo as int, n as int);
    assert(lo == 1 ==> u =~= b@.drop_first());
    assert(lo == 0 ==> u =~= b@);
    if special_between(b, lo, n) {
        return true;
    }
    let k = first_of(b, lo, n, 101, 69);
    let r = mantissa_between(b, lo, k) && (k == n || exponent_between(b, k + 1, n));
    proof {
        let kk = k - lo;
        assert(u.subrange(0, kk) =~= b@.subrange(lo as int, k as int));
        assert(k < n ==> u.subrange(kk + 1, u.len() as int) =~= b@.subrange(k + 1, n as int));
        if !r {
            assert forall|j: int|
                0 <= j <= u.len() && #[trigger] is_mantissa(u.subrange(0, j)) implies !(j
                == u.len() || (is_exp_mark(u[j]) && is_exponent(
                u.subrange(j + 1, u.len() as int),
            ))) by {
                if j < kk {
                    assert(b@[lo + j] != 101 && b@[lo + j] != 69);
                } else if j > kk {
                    lemma_mantissa_bytes(u.subrange(0, j));
                    assert(u.subrange(0, j)[kk] == b@[k as int]);
                }
            }
        }
    }
    r
}

/// The text of a floating-point literal, kept as it was written; turning it
/// into a binary float is left to the caller.
#[derive(Clone, Debug, PartialEq, Eq)]
pub struct FloatLiteral {
    text: String,
}

impl View for FloatLiteral {
    type V = Seq<char>;

    closed spec fn view(&self) -> Seq<char> {
        self.text@
    }
}

impl FloatLiteral {
    /// Accepts `s` when it is a floating-point literal.
    pub fn parse(s: &str) -> (r: Option<FloatLiteral>)
        ensures
            r is Some <==> is_float_literal(s.spec_bytes()),
            r matches Some(x) ==> x@ == s@,
    {
        if is_float_text(s) {
            Some(FloatLiteral { text: s.to_owned() })
        } else {
            None
        }
    }

    pub fn as_str(&self) -> (r: &str)
        ensures
            r@ == self@,
    {
        self.text.as_str()
    }
}

} // verus!
