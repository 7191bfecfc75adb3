//! The persisted accounting checkpoint: the single shared, mutable record of
//! the daemon.
//!
//! A checkpoint holds the absolute time at which the current accounting window
//! ends, the cumulative-byte baseline taken at the window start, and the most
//! recently persisted cumulative reading. The byte fields are unbounded
//! counters, persisted as decimal text (see `bigint`).

use vstd::prelude::*;
use num_bigint::BigUint;
use crate::bigint::{
    all_digits, big_clone, big_lt, big_value, dec_of, dec_value, lemma_dec_of_digits,
    lemma_decimal_round_trip, parse_decimal, to_decimal,
};

verus! {

/// The mathematical content of a checkpoint.
pub ghost struct CheckpointView {
    pub reset_at_ms: u64,
    pub starting_bytes: nat,
    pub last_saved_bytes: nat,
}

pub struct Checkpoint {
    /// Epoch-millisecond timestamp at which the current window ends.
    pub reset_at_ms: u64,
    /// Cumulative-byte baseline at window start.
    pub starting_bytes: BigUint,
    /// Most recently persisted cumulative reading.
    pub last_saved_bytes: BigUint,
}

impl View for Checkpoint {
    type V = CheckpointView;

    open spec fn view(&self) -> CheckpointView {
        CheckpointView {
            reset_at_ms: self.reset_at_ms,
            starting_bytes: big_value(self.starting_bytes),
            last_saved_bytes: big_value(self.last_saved_bytes),
        }
    }
}

impl Checkpoint {
    /// Synthesize the first checkpoint when none was persisted: both byte
    /// fields start at the fresh counter reading, and the first window ends
    /// one full window length after now.
    pub fn seed(current: BigUint, now_ms: u64, capture_timeframe_ms: u64) -> (cp: Checkpoint)
        requires
            now_ms + capture_timeframe_ms <= u64::MAX,
        ensures
            cp@.reset_at_ms == now_ms + capture_timeframe_ms,
            cp@.starting_bytes == big_value(current),
            cp@.last_saved_bytes == big_value(current),
            capture_timeframe_ms > 0 ==> cp@.reset_at_ms > now_ms,
    {
        let last = big_clone(&current);
        Checkpoint { reset_at_ms: now_ms + capture_timeframe_ms, starting_bytes: current, last_saved_bytes: last }
    }

    /// Startup recovery: raw interface counters are not monotonic across a
    /// host restart, so a fresh reading below the persisted baseline signals
    /// that the counters were reset. In that case the baseline is lowered to
    /// the fresh reading; the caller must persist the checkpoint before any
    /// loop starts. Returns whether the baseline changed.
    pub fn rebaseline_if_counters_reset(&mut self, current: &BigUint) -> (changed: bool)
        ensures
            changed == (big_value(*current) < old(self)@.starting_bytes),
            final(self)@.starting_bytes == if changed {
                big_value(*current)
            } else {
                old(self)@.starting_bytes
            },
            final(self)@.reset_at_ms == old(self)@.reset_at_ms,
            final(self)@.last_saved_bytes == old(self)@.last_saved_bytes,
    {
        if big_lt(current, &self.starting_bytes) {
            self.starting_bytes = big_clone(current);
            true
        } else {
            false
        }
    }

    /// The persistence loop's step: record the fresh cumulative reading as
    /// the last saved one. The caller persists the checkpoint right after.
    pub fn record_reading(&mut self, current: BigUint)
        ensures
            final(self)@.last_saved_bytes == big_value(current),
            final(self)@.starting_bytes == old(self)@.starting_bytes,
            final(self)@.reset_at_ms == old(self)@.reset_at_ms,
    {
        self.last_saved_bytes = current;
    }

    /// Rebuild a checkpoint from its persisted fields; the byte fields are
    /// decimal text. Succeeds exactly when both parse.
    pub fn from_parts(reset_at_ms: u64, starting_bytes: &Vec<u8>, last_saved_bytes: &Vec<u8>) -> (r:
        Option<Checkpoint>)
        ensures
            match r {
                Some(cp) => {
                    &&& cp@.reset_at_ms == reset_at_ms
                    &&& starting_bytes@.len() > 0
                    &&& cp@.starting_bytes == dec_value(starting_bytes@)
                    &&& last_saved_bytes@.len() > 0
                    &&& cp@.last_saved_bytes == dec_value(last_saved_bytes@)
                },
                None => starting_bytes@.len() == 0 || !all_digits(starting_bytes@)
                    || last_saved_bytes@.len() == 0 || !all_digits(last_saved_bytes@),
            },
    {
        let starting = parse_decimal(starting_bytes);
        let last_saved = parse_decimal(last_saved_bytes);
        match (starting, last_saved) {
            (Some(s), Some(l)) => Some(
                Checkpoint { reset_at_ms, starting_bytes: s, last_saved_bytes: l },
            ),
            _ => None,
        }
    }

    /// The baseline as canonical decimal text, for persisting.
    pub fn starting_bytes_decimal(&self) -> (r: Vec<u8>)
        ensures
            r@ == dec_of(self@.starting_bytes),
    {
        to_decimal(&self.starting_bytes)
    }

    /// The last saved reading as canonical decimal text, for persisting.
    pub fn last_saved_bytes_decimal(&self) -> (r: Vec<u8>)
        ensures
            r@ == dec_of(self@.last_saved_bytes),
    {
        to_decimal(&self.last_saved_bytes)
    }
}

/// A persisted checkpoint is valid input to a subsequent load: the decimal
/// text its byte fields go out as (`starting_bytes_decimal`,
/// `last_saved_bytes_decimal`) is non-empty all-digit text, so `from_parts`
/// accepts it, and it parses back to the very values that were persisted.
pub proof fn lemma_persisted_checkpoint_loads_back(cp: Checkpoint)
    ensures
        dec_of(cp@.starting_bytes).len() > 0,
        all_digits(dec_of(cp@.starting_bytes)),
        dec_value(dec_of(cp@.starting_bytes)) == cp@.starting_bytes,
        dec_of(cp@.last_saved_bytes).len() > 0,
        all_digits(dec_of(cp@.last_saved_bytes)),
        dec_value(dec_of(cp@.last_saved_bytes)) == cp@.last_saved_bytes,
{
    lemma_dec_of_digits(cp@.starting_bytes);
    lemma_decimal_round_trip(cp@.starting_bytes);
    lemma_dec_of_digits(cp@.last_saved_bytes);
    lemma_decimal_round_trip(cp@.last_saved_bytes);
}

} // verus!
