//! The verdict of one round-trip attempt, and the rule that maps what the
//! codec did at each stage to that verdict.

use vstd::prelude::*;
use crate::corpus::EqualityPolicy;

verus! {

/// Which stage of a round trip went wrong. `Reencode`: a value that had just
/// decoded could not be encoded again. `Redecode`: the re-encoded bytes did
/// not decode. `Mismatch`: under the exact policy, the twice-decoded value
/// differed from the once-decoded one.
#[derive(Clone, Copy, PartialEq, Eq, Structural, Debug)]
pub enum RoundTripFault {
    Reencode,
    Redecode,
    Mismatch,
}

/// The verdict of one (descriptor, wrapper shape) attempt against one input.
/// `Skipped`: the initial decode failed, which is the expected case for most
/// inputs and no fault. `Passed`: the round trip completed and satisfied the
/// equality policy. `Failed`: a genuine codec defect was observed.
#[derive(Clone, Copy, PartialEq, Eq, Structural, Debug)]
pub enum RoundTripOutcome {
    Skipped,
    Passed,
    Failed(RoundTripFault),
}

/// The verdict as a function of what happened at each stage: whether the
/// initial decode succeeded, whether the re-encode succeeded, whether the
/// re-decode succeeded, and whether the two decoded values were equal. Under
/// the lossy policy the equality flag is ignored.
pub open spec fn verdict_spec(
    policy: EqualityPolicy,
    decoded: bool,
    reencoded: bool,
    redecoded: bool,
    equal: bool,
) -> RoundTripOutcome {
    if !decoded {
        RoundTripOutcome::Skipped
    } else if !reencoded {
        RoundTripOutcome::Failed(RoundTripFault::Reencode)
    } else if !redecoded {
        RoundTripOutcome::Failed(RoundTripFault::Redecode)
    } else if policy == EqualityPolicy::Exact && !equal {
        RoundTripOutcome::Failed(RoundTripFault::Mismatch)
    } else {
        RoundTripOutcome::Passed
    }
}

/// Maps the stage flags of one attempt to its verdict, exactly as
/// `verdict_spec` fixes it.
pub fn judge(
    policy: EqualityPolicy,
    decoded: bool,
    reencoded: bool,
    redecoded: bool,
    equal: bool,
) -> (r: RoundTripOutcome)
    ensures
        r == verdict_spec(policy, decoded, reencoded, redecoded, equal),
{
    if !decoded {
        RoundTripOutcome::Skipped
    } else if !reencoded {
        RoundTripOutcome::Failed(RoundTripFault::Reencode)
    } else if !redecoded {
        RoundTripOutcome::Failed(RoundTripFault::Redecode)
    } else if matches!(policy, EqualityPolicy::Exact) && !equal {
        RoundTripOutcome::Failed(RoundTripFault::Mismatch)
    } else {
        RoundTripOutcome::Passed
    }
}

/// Under the exact policy, a passed verdict certifies the whole round trip:
/// every stage succeeded and the twice-decoded value equaled the original.
pub proof fn lemma_exact_passed_is_identity(
    decoded: bool,
    reencoded: bool,
    redecoded: bool,
    equal: bool,
)
    ensures
        verdict_spec(EqualityPolicy::Exact, decoded, reencoded, redecoded, equal)
            == RoundTripOutcome::Passed ==> decoded && reencoded && redecoded && equal,
{
}

/// Under the lossy policy the verdict never depends on value equality: the
/// two flags give the same verdict, and in particular no mismatch is ever
/// reported.
pub proof fn lemma_lossy_ignores_equality(
    decoded: bool,
    reencoded: bool,
    redecoded: bool,
    equal_a: bool,
    equal_b: bool,
)
    ensures
        verdict_spec(EqualityPolicy::Lossy, decoded, reencoded, redecoded, equal_a)
            == verdict_spec(EqualityPolicy::Lossy, decoded, reencoded, redecoded, equal_b),
        verdict_spec(EqualityPolicy::Lossy, decoded, reencoded, redecoded, equal_a)
            != RoundTripOutcome::Failed(RoundTripFault::Mismatch),
{
}

/// Under either policy, a decoded value is never skipped, and a passed
/// verdict certifies that the re-encode and the re-decode both succeeded.
pub proof fn lemma_passed_round_trip_ran(
    policy: EqualityPolicy,
    decoded: bool,
    reencoded: bool,
    redecoded: bool,
    equal: bool,
)
    ensures
        decoded ==> verdict_spec(policy, decoded, reencoded, redecoded, equal)
            != RoundTripOutcome::Skipped,
        verdict_spec(policy, decoded, reencoded, redecoded, equal)
            == RoundTripOutcome::Passed ==> decoded && reencoded && redecoded,
{
}

} // verus!
