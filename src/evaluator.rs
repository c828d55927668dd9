//! The threshold evaluator: pure decision logic on observation magnitudes.
use vstd::prelude::*;

use crate::types::AdaptiveContract;

verus! {

/// The absolute value of a signed observation.
pub open spec fn magnitude_of(value: i64) -> nat {
    if value >= 0 { value as nat } else { (-(value as int)) as nat }
}

/// The absolute value of `value`, exact on the whole `i64` range.
pub fn magnitude(value: i64) -> (r: u64)
    ensures
        r as nat == magnitude_of(value),
{
    if value >= 0 {
        value as u64
    } else {
        (-(value + 1)) as u64 + 1
    }
}

/// Whether an observation of `value` reaches `threshold` in magnitude.
pub open spec fn crosses(threshold: u64, value: i64) -> bool {
    magnitude_of(value) >= threshold
}

/// The timestamp a record carries after a refresh at `now`: timestamps never
/// go backwards.
pub open spec fn refreshed(last: u64, now: u64) -> u64 {
    if now > last { now } else { last }
}

/// `c` after auto-execution at `now`: inactive, with a refreshed timestamp.
pub open spec fn executed(c: AdaptiveContract, now: u64) -> AdaptiveContract {
    AdaptiveContract { is_active: false, last_updated: refreshed(c.last_updated, now), ..c }
}

/// Whether evaluating `value` against `c` deactivates it.
pub open spec fn triggers(c: AdaptiveContract, value: i64) -> bool {
    c.is_active && crosses(c.threshold, value)
}

/// `last_updated` refreshed to `now`, never moved backwards.
pub fn refresh(last: u64, now: u64) -> (r: u64)
    ensures
        r == refreshed(last, now),
{
    if now > last {
        now
    } else {
        last
    }
}

/// Evaluates an observation against a contract: an active contract whose
/// threshold the magnitude of `value` reaches becomes inactive, and its
/// `last_updated` is refreshed; otherwise the contract is left as it was.
/// Returns whether the contract was deactivated.
pub fn evaluate_threshold(contract: &mut AdaptiveContract, value: i64, now: u64) -> (fired: bool)
    ensures
        fired == triggers(*old(contract), value),
        fired ==> *final(contract) == executed(*old(contract), now),
        !fired ==> *final(contract) == *old(contract),
{
    if !contract.is_active {
        return false;
    }
    let m = magnitude(value);
    if m >= contract.threshold {
        contract.is_active = false;
        contract.last_updated = refresh(contract.last_updated, now);
        true
    } else {
        false
    }
}

/// The text of a `ContractExecuted` notification for a magnitude that reached
/// a threshold.
pub uninterp spec fn execution_reason(magnitude: u64, threshold: u64) -> Seq<char>;

/// Relies on std's `format!`: the decimal rendering of the compared magnitude
/// and threshold, which depends on the two numbers alone.
#[verifier::external_body]
pub(crate) fn threshold_reason(magnitude: u64, threshold: u64) -> (r: String)
    ensures
        r@ == execution_reason(magnitude, threshold),
{
    format!("Threshold reached: {} >= {}", magnitude, threshold)
}

} // verus!
