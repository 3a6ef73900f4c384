use vstd::prelude::*;

verus! {

/// The byte of `'0'`.
pub const DIGIT_ZERO: u8 = 48;

/// The byte of `'9'`.
pub const DIGIT_NINE: u8 = 57;

/// The byte of `'-'`.
pub const MINUS: u8 = 45;

/// The byte of `'+'`.
pub const PLUS: u8 = 43;

pub open spec fn is_digit(b: u8) -> bool {
    DIGIT_ZERO <= b <= DIGIT_NINE
}

pub open spec fn all_digits(s: Seq<u8>) -> bool {
    forall|i: int| 0 <= i < s.len() ==> is_digit(#[trigger] s[i])
}

/// The number that a run of decimal digits writes, most significant first.
pub open spec fn digits_value(s: Seq<u8>) -> int
    decreases s.len(),
{
    if s.len() == 0 {
        0
    } else {
        digits_value(s.drop_last()) * 10 + (s.last() - DIGIT_ZERO)
    }
}

/// The integer that `s` writes in decimal: an optional sign, then at least
/// one digit, and nothing else.
pub open spec fn decimal_of(s: Seq<u8>) -> Option<int> {
    if s.len() > 0 && (s[0] == MINUS || s[0] == PLUS) {
        let d = s.subrange(1, s.len() as int);
        if d.len() > 0 && all_digits(d) {
            if s[0] == MINUS {
                Some(-digits_value(d))
            } else {
                Some(digits_value(d))
            }
        } else {
            None
        }
    } else if s.len() > 0 && all_digits(s) {
        Some(digits_value(s))
    } else {
        None
    }
}

/// What parsing `s` as an `i32` gives: the decimal value, where it is in range.
pub open spec fn i32_of(s: Seq<u8>) -> Option<i32> {
    match decimal_of(s) {
        Some(v) => if i32::MIN <= v <= i32::MAX {
            Some(v as i32)
        } else {
            None
        },
        None => None,
    }
}

/// One more than the largest magnitude of an `i32`: the cap past which a
/// count of digits needs no more precision.
const MAGNITUDE_CAP: i64 = 2147483649;

spec fn capped(v: int) -> int {
    if v < MAGNITUDE_CAP {
        v
    } else {
        MAGNITUDE_CAP as int
    }
}

proof fn lemma_digits_nonneg(s: Seq<u8>)
    requires
        all_digits(s),
    ensures
        digits_value(s) >= 0,
    decreases s.len(),
{
    if s.len() > 0 {
        assert(all_digits(s.drop_last()));
        lemma_digits_nonneg(s.drop_last());
    }
}

/// The magnitude written by the digits of `b` from `start` on, capped, or
/// `None` where one of them is not a digit or there are none.
fn capped_magnitude(b: &[u8], start: usize) -> (r: Option<i64>)
    requires
        start <= b@.len(),
    ensures
        ({
            let d = b@.subrange(start as int, b@.len() as int);
            match r {
                Some(m) => d.len() > 0 && all_digits(d) && m == capped(digits_value(d)),
                None => !(d.len() > 0 && all_digits(d)),
            }
        }),
{
    if start == b.len() {
        return None;
    }
    let ghost d = b@.subrange(start as int, b@.len() as int);
    let mut acc: i64 = 0;
    let mut i: usize = start;
    while i < b.len()
        invariant
            start <= i <= b@.len(),
            d == b@.subrange(start as int, b@.len() as int),
            all_digits(b@.subrange(start as int, i as int)),
            acc == capped(digits_value(b@.subrange(start as int, i as int))),
        decreases b@.len() - i,
    {
        let c = b[i];
        if c < DIGIT_ZERO || c > DIGIT_NINE {
            assert(d[i - start] == c);
            return None;
        }
        let ghost pre = b@.subrange(start as int, i as int);
        let ghost next = b@.subrange(start as int, i + 1);
        assert(next.drop_last() == pre);
        assert(next.last() == c);
        assert(all_digits(next)) by {
            assert forall|k: int| 0 <= k < next.len() implies is_digit(#[trigger] next[k]) by {
                if k < pre.len() {
                    assert(next[k] == pre[k]);
                }
            }
        }
        proof {
            lemma_digits_nonneg(pre);
        }
        let digit = (c - DIGIT_ZERO) as i64;
        proof {
            if digits_value(pre) >= MAGNITUDE_CAP {
                assert(digits_value(next) >= MAGNITUDE_CAP) by (nonlinear_arith)
                    requires
                        digits_value(next) == digits_value(pre) * 10 + digit,
                        digits_value(pre) >= MAGNITUDE_CAP,
                        digit >= 0,
                ;
            }
        }
        let v = acc * 10 + digit;
        acc = if v < MAGNITUDE_CAP {
            v
        } else {
            MAGNITUDE_CAP
        };
        i += 1;
    }
    assert(d == b@.subrange(start as int, i as int));
    Some(acc)
}

/// Parses the bytes of `b` from `start` on as a decimal `i32`, as
/// `str::parse::<i32>` does: an optional `+` or `-`, then one or more ASCII
/// digits, within range.
pub fn parse_i32_from(b: &[u8], start: usize) -> (r: Option<i32>)
    requires
        start <= b@.len(),
    ensures
        r == i32_of(b@.subrange(start as int, b@.len() as int)),
{
    let ghost s = b@.subrange(start as int, b@.len() as int);
    if start < b.len() && (b[start] == MINUS || b[start] == PLUS) {
        let negative = b[start] == MINUS;
        assert(s[0] == b@[start as int]);
        let m = capped_magnitude(b, start + 1);
        assert(s.subrange(1, s.len() as int) == b@.subrange(start + 1, b@.len() as int));
        match m {
            Some(m) => {
                proof {
                    lemma_digits_nonneg(s.subrange(1, s.len() as int));
                }
                if negative {
                    if m <= 2147483648 {
                        Some((-m) as i32)
                    } else {
                        None
                    }
                } else if m <= 2147483647 {
                    Some(m as i32)
                } else {
                    None
                }
            },
            None => None,
        }
    } else {
        let m = capped_magnitude(b, start);
        match m {
            Some(m) => {
                proof {
                    lemma_digits_nonneg(s);
                }
                if m <= 2147483647 {
                    Some(m as i32)
                } else {
                    None
                }
            },
            None => None,
        }
    }
}

/// Parses all of `b` as a decimal `i32` (see `parse_i32_from`).
pub fn parse_i32(b: &[u8]) -> (r: Option<i32>)
    ensures
        r == i32_of(b@),
{
    assert(b@.subrange(0, b@.len() as int) == b@);
    parse_i32_from(b, 0)
}

} // verus!

verus! {

/// Whether `a` and `b` hold the same bytes.
pub fn same_bytes(a: &[u8], b: &[u8]) -> (r: bool)
    ensures
        r == (a@ == b@),
{
    if a.len() != b.len() {
        return false;
    }
    let mut i: usize = 0;
    while i < a.len()
        invariant
            a@.len() == b@.len(),
            0 <= i <= a@.len(),
            a@.subrange(0, i as int) == b@.subrange(0, i as int),
        decreases a@.len() - i,
    {
        if a[i] != b[i] {
            assert(a@[i as int] != b@[i as int]);
            return false;
        }
        assert(a@.subrange(0, i + 1) == a@.subrange(0, i as int).push(a@[i as int]));
        assert(b@.subrange(0, i + 1) == b@.subrange(0, i as int).push(b@[i as int]));
        i += 1;
    }
    assert(a@ == a@.subrange(0, a@.len() as int));
    assert(b@ == b@.subrange(0, b@.len() as int));
    true
}

/// Whether `a` begins with the bytes of `p`.
pub fn starts_with_bytes(a: &[u8], p: &[u8]) -> (r: bool)
    ensures
        r == p@.is_prefix_of(a@),
{
    if a.len() < p.len() {
        return false;
    }
    let mut i: usize = 0;
    while i < p.len()
        invariant
            p@.len() <= a@.len(),
            0 <= i <= p@.len(),
            forall|k: int| 0 <= k < i ==> a@[k] == p@[k],
        decreases p@.len() - i,
    {
        if a[i] != p[i] {
            return false;
        }
        i += 1;
    }
    assert(p@ == a@.subrange(0, p@.len() as int));
    true
}

} // verus!
