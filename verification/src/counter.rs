//! Summation of per-interface cumulative outbound byte counters.
//!
//! The caller enumerates the interfaces and reads each counter file; this
//! module turns those raw readings into one exact unbounded total. A reading
//! may carry a trailing line terminator or other trailing whitespace, which is
//! stripped before parsing; anything that then is not a non-empty digit string
//! is a fatal parse error, since a missing counter would make the total wrong.

use vstd::prelude::*;
use num_bigint::BigUint;
use crate::bigint::{all_digits, big_add, big_from_u64, big_value, dec_value, parse_decimal_prefix};

verus! {

/// ASCII whitespace as it can trail a counter reading: space, tab, line feed,
/// carriage return.
pub open spec fn is_trailing_ws(b: u8) -> bool {
    b == 32 || b == 9 || b == 10 || b == 13
}

/// A reading with its trailing whitespace removed.
pub open spec fn trim_end(s: Seq<u8>) -> Seq<u8>
    decreases s.len(),
{
    if s.len() > 0 && is_trailing_ws(s.last()) {
        trim_end(s.drop_last())
    } else {
        s
    }
}

/// A raw reading that parses: non-empty and all digits once trimmed.
pub open spec fn counter_ok(s: Seq<u8>) -> bool {
    trim_end(s).len() > 0 && all_digits(trim_end(s))
}

/// The exact sum of the values of a sequence of raw readings.
pub open spec fn counters_total(rs: Seq<Vec<u8>>) -> nat
    decreases rs.len(),
{
    if rs.len() == 0 {
        0
    } else {
        counters_total(rs.drop_last()) + dec_value(trim_end(rs.last()@))
    }
}

/// Failure to turn the raw readings into a total; fatal for the daemon.
#[derive(Clone, Copy, Debug, PartialEq, Eq)]
pub enum CounterError {
    /// Some reading was empty or held a non-digit before its trailing
    /// whitespace.
    Unparsable,
}

fn byte_is_trailing_ws(b: u8) -> (r: bool)
    ensures
        r == is_trailing_ws(b),
{
    b == 32 || b == 9 || b == 10 || b == 13
}

/// Length of `s` with trailing whitespace removed.
fn trimmed_len(s: &Vec<u8>) -> (r: usize)
    ensures
        r <= s@.len(),
        s@.take(r as int) =~= trim_end(s@),
{
    let mut j: usize = s.len();
    proof {
        assert(s@.take(j as int) =~= s@);
    }
    while j > 0 && byte_is_trailing_ws(s[j - 1])
        invariant
            j <= s@.len(),
            trim_end(s@) =~= trim_end(s@.take(j as int)),
        decreases j,
    {
        proof {
            let t = s@.take(j as int);
            assert(t.last() == s@[j - 1]);
            assert(t.drop_last() =~= s@.take(j - 1));
        }
        j = j - 1;
    }
    proof {
        if j > 0 {
            let t = s@.take(j as int);
            assert(t.last() == s@[j - 1]);
            assert(!is_trailing_ws(t.last()));
            assert(trim_end(t) =~= t);
        }
    }
    j
}

/// Parse one raw per-interface reading, ignoring trailing whitespace.
pub fn parse_counter(s: &Vec<u8>) -> (r: Option<BigUint>)
    ensures
        match r {
            Some(b) => counter_ok(s@) && big_value(b) == dec_value(trim_end(s@)),
            None => !counter_ok(s@),
        },
{
    let end = trimmed_len(s);
    parse_decimal_prefix(s, end)
}

/// Sum all per-interface readings into one exact unbounded total.
/// Succeeds exactly when every reading parses; the sum is exact even beyond
/// 64-bit range.
pub fn read_total(readings: &Vec<Vec<u8>>) -> (r: Result<BigUint, CounterError>)
    ensures
        match r {
            Ok(b) => (forall|i: int| 0 <= i < readings@.len() ==> counter_ok(readings@[i]@))
                && big_value(b) == counters_total(readings@),
            Err(e) => e == CounterError::Unparsable && (exists|i: int|
                0 <= i < readings@.len() && !counter_ok(readings@[i]@)),
        },
{
    let mut sum = big_from_u64(0);
    let mut i: usize = 0;
    while i < readings.len()
        invariant
            i <= readings@.len(),
            forall|k: int| 0 <= k < i ==> counter_ok(readings@[k]@),
            big_value(sum) == counters_total(readings@.take(i as int)),
        decreases readings@.len() - i,
    {
        match parse_counter(&readings[i]) {
            Some(b) => {
                sum = big_add(&sum, &b);
                proof {
                    let t = readings@.take(i + 1);
                    assert(t.drop_last() =~= readings@.take(i as int));
                    assert(t.last() == readings@[i as int]);
                }
                i = i + 1;
            },
            None => {
                return Err(CounterError::Unparsable);
            },
        }
    }
    proof {
        assert(readings@.take(readings@.len() as int) =~= readings@);
    }
    Ok(sum)
}

} // verus!
