//! Unbounded byte counters.
//!
//! Cumulative egress counters can exceed 64-bit range over a long window, so
//! they are held as arbitrary-precision non-negative integers and persisted as
//! decimal text. The arithmetic is done by `num_bigint::BigUint` behind a few
//! trusted wrappers; the decimal encoding and parsing logic is verified here
//! against the spec functions `dec_of` and `dec_value`.

use vstd::prelude::*;
use num_bigint::BigUint;

verus! {

#[verifier::external_type_specification]
#[verifier::external_body]
pub struct ExBigUint(BigUint);

/// The natural number that a `BigUint` holds.
pub uninterp spec fn big_value(b: BigUint) -> nat;

/// Relies on `<BigUint as From<u64>>::from`: the result holds the argument.
#[verifier::external_body]
pub(crate) fn big_from_u64(x: u64) -> (r: BigUint)
    ensures
        big_value(r) == x as nat,
{
    BigUint::from(x)
}

/// Relies on `<BigUint as Clone>::clone`: the clone holds the same value.
#[verifier::external_body]
pub(crate) fn big_clone(b: &BigUint) -> (r: BigUint)
    ensures
        big_value(r) == big_value(*b),
{
    b.clone()
}

/// Relies on `<BigUint as Ord>::cmp` (via `<`), which orders by magnitude.
#[verifier::external_body]
pub(crate) fn big_lt(a: &BigUint, b: &BigUint) -> (r: bool)
    ensures
        r == (big_value(*a) < big_value(*b)),
{
    a < b
}

/// Relies on `<&BigUint as Add<&BigUint>>::add`: exact sum.
#[verifier::external_body]
pub(crate) fn big_add(a: &BigUint, b: &BigUint) -> (r: BigUint)
    ensures
        big_value(r) == big_value(*a) + big_value(*b),
{
    a + b
}

/// Relies on `<&BigUint as Sub<&BigUint>>::sub`: exact difference.
/// The subtrahend may not exceed the minuend: `BigUint` subtraction has no
/// value to return there and aborts, which the precondition rules out.
#[verifier::external_body]
pub(crate) fn big_sub(a: &BigUint, b: &BigUint) -> (r: BigUint)
    requires
        big_value(*b) <= big_value(*a),
    ensures
        big_value(r) == big_value(*a) - big_value(*b),
{
    a - b
}

/// Relies on `<&BigUint as Mul<&BigUint>>::mul`: exact product.
#[verifier::external_body]
pub(crate) fn big_mul(a: &BigUint, b: &BigUint) -> (r: BigUint)
    ensures
        big_value(r) == big_value(*a) * big_value(*b),
{
    a * b
}

/// Relies on `BigUint::to_str_radix` with radix 10: canonical decimal digits,
/// no sign, no leading zero except for the single digit of zero itself.
#[verifier::external_body]
pub(crate) fn big_to_decimal(b: &BigUint) -> (r: Vec<u8>)
    ensures
        r@ == dec_of(big_value(*b)),
{
    b.to_str_radix(10).into_bytes()
}

/// An ASCII decimal digit.
pub open spec fn is_digit(b: u8) -> bool {
    48 <= b <= 57
}

pub open spec fn digit_val(b: u8) -> nat {
    (b - 48) as nat
}

pub open spec fn all_digits(s: Seq<u8>) -> bool {
    forall|i: int| 0 <= i < s.len() ==> is_digit(s[i])
}

/// The value of a big-endian sequence of decimal digit bytes.
pub open spec fn dec_value(s: Seq<u8>) -> nat
    decreases s.len(),
{
    if s.len() == 0 {
        0
    } else {
        dec_value(s.drop_last()) * 10 + digit_val(s.last())
    }
}

/// The canonical decimal encoding of a natural number.
pub open spec fn dec_of(n: nat) -> Seq<u8>
    decreases n,
{
    if n < 10 {
        seq![(48 + n) as u8]
    } else {
        dec_of(n / 10).push((48 + n % 10) as u8)
    }
}

/// The canonical decimal encoding consists of digits and is never empty.
pub proof fn lemma_dec_of_digits(n: nat)
    ensures
        dec_of(n).len() > 0,
        all_digits(dec_of(n)),
    decreases n,
{
    if n >= 10 {
        lemma_dec_of_digits(n / 10);
        assert forall|i: int| 0 <= i < dec_of(n).len() implies is_digit(dec_of(n)[i]) by {
            if i < dec_of(n / 10).len() {
                assert(dec_of(n)[i] == dec_of(n / 10)[i]);
            }
        }
    }
}

/// Decimal encoding round-trips: parsing the canonical encoding of a number
/// yields the number back.
pub proof fn lemma_decimal_round_trip(n: nat)
    ensures
        dec_value(dec_of(n)) == n,
    decreases n,
{
    if n < 10 {
        let s = dec_of(n);
        assert(s.len() == 1);
        assert(s.last() == (48 + n) as u8);
        assert(s.drop_last() =~= Seq::<u8>::empty());
        assert(dec_value(s.drop_last()) == 0);
        assert(dec_value(s) == digit_val((48 + n) as u8));
    } else {
        lemma_decimal_round_trip(n / 10);
        let s = dec_of(n);
        assert(s.drop_last() =~= dec_of(n / 10));
        assert(dec_value(s) == dec_value(dec_of(n / 10)) * 10 + digit_val((48 + n % 10) as u8));
        vstd::arithmetic::div_mod::lemma_fundamental_div_mod(n as int, 10);
    }
}

/// Parse a big-endian decimal digit string into an unbounded counter value.
/// Succeeds exactly on non-empty all-digit input.
pub fn parse_decimal(s: &Vec<u8>) -> (r: Option<BigUint>)
    ensures
        match r {
            Some(b) => s@.len() > 0 && all_digits(s@) && big_value(b) == dec_value(s@),
            None => s@.len() == 0 || !all_digits(s@),
        },
{
    proof {
        assert(s@.take(s@.len() as int) =~= s@);
    }
    parse_decimal_prefix(s, s.len())
}

/// Parse the first `end` bytes of `s` as a decimal digit string.
pub fn parse_decimal_prefix(s: &Vec<u8>, end: usize) -> (r: Option<BigUint>)
    requires
        end <= s@.len(),
    ensures
        match r {
            Some(b) => end > 0 && all_digits(s@.take(end as int)) && big_value(b) == dec_value(
                s@.take(end as int),
            ),
            None => end == 0 || !all_digits(s@.take(end as int)),
        },
{
    if end == 0 {
        return None;
    }
    let ten = big_from_u64(10);
    let mut acc = big_from_u64(0);
    let mut i: usize = 0;
    while i < end
        invariant
            i <= end <= s@.len(),
            big_value(ten) == 10,
            all_digits(s@.take(i as int)),
            big_value(acc) == dec_value(s@.take(i as int)),
        decreases end - i,
    {
        let b = s[i];
        if b < 48 || b > 57 {
            proof {
                assert(s@.take(end as int)[i as int] == s@[i as int]);
                assert(!all_digits(s@.take(end as int)));
            }
            return None;
        }
        let shifted = big_mul(&acc, &ten);
        let digit = big_from_u64((b - 48) as u64);
        acc = big_add(&shifted, &digit);
        proof {
            let t = s@.take(i + 1);
            assert(t.drop_last() =~= s@.take(i as int));
            assert(t.last() == s@[i as int]);
            assert(dec_value(t) == dec_value(s@.take(i as int)) * 10 + digit_val(s@[i as int]));
            assert forall|j: int| 0 <= j < t.len() implies is_digit(t[j]) by {
                if j < i {
                    assert(t[j] == s@.take(i as int)[j]);
                }
            }
        }
        i = i + 1;
    }
    proof {
        assert(s@.take(end as int) =~= s@.take(end as int));
    }
    Some(acc)
}

/// The canonical decimal encoding of an unbounded counter value, as bytes.
pub fn to_decimal(b: &BigUint) -> (r: Vec<u8>)
    ensures
        r@ == dec_of(big_value(*b)),
{
    big_to_decimal(b)
}

} // verus!
