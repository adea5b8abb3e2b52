//! The round-trip executor: decode the input bytes, re-encode the decoded
//! value, decode the encoding again, and judge the attempt under the type's
//! equality policy. The codec under test sits behind two trusted wrappers;
//! everything that decides is verified.

use vstd::prelude::*;
use crate::corpus::{shapes_spec, EqualityPolicy};
use crate::outcome::{judge, RoundTripFault, RoundTripOutcome};

verus! {

/// Relies on serde_bser::de::from_slice: reads one BSER pdu from `data` as a
/// value of `T`. Malformed or foreign input comes back through the error
/// channel, mapped to `None` here; the codec treats such input as an
/// ordinary error, never as undefined behaviour.
#[verifier::external_body]
fn decode_from_slice<T: serde::de::DeserializeOwned>(data: &[u8]) -> (r: Option<T>) {
    serde_bser::de::from_slice(data).ok()
}

/// Relies on serde_bser::ser::serialize: writes `value` as one BSER pdu into
/// a fresh buffer, returning `None` where the encoder reports an error.
#[verifier::external_body]
fn serialize_to_vec<T: serde::Serialize>(value: &T) -> (r: Option<Vec<u8>>) {
    serde_bser::ser::serialize(Vec::new(), value).ok()
}

/// Executes one round trip over a value that has already decoded: re-encodes
/// it, decodes the encoding again, and judges the attempt under `policy`.
/// A value in hand is never skipped; under the lossy policy the two decoded
/// values are not compared, so no mismatch can be reported.
pub fn round_trip_value<T: PartialEq + serde::Serialize + serde::de::DeserializeOwned>(
    value: &T,
    policy: EqualityPolicy,
) -> (r: RoundTripOutcome)
    ensures
        r != RoundTripOutcome::Skipped,
        policy == EqualityPolicy::Lossy ==> r != RoundTripOutcome::Failed(
            RoundTripFault::Mismatch,
        ),
{
    match serialize_to_vec::<T>(value) {
        None => judge(policy, true, false, false, false),
        Some(buf) => match decode_from_slice::<T>(buf.as_slice()) {
            None => judge(policy, true, true, false, false),
            Some(again) => {
                let equal = match policy {
                    EqualityPolicy::Exact => *value == again,
                    EqualityPolicy::Lossy => true,
                };
                judge(policy, true, true, true, equal)
            },
        },
    }
}

/// Attempts the three wrapper shapes of one corpus member against the same
/// input, each independently of the others: the bare type at index 0, the
/// optional wrapper at index 1, the sequence wrapper at index 2. A failed
/// decode of one shape neither blocks nor implies anything for the other
/// two; every shape is attempted on every call. The member's equality
/// policy covers its wrapper forms as well: a member through which a float
/// is reachable is judged lossy in every form.
pub fn from_bytes<T: PartialEq + serde::Serialize + serde::de::DeserializeOwned>(
    data: &[u8],
    policy: EqualityPolicy,
) -> (r: Vec<RoundTripOutcome>)
    ensures
        r@.len() == shapes_spec().len(),
        policy == EqualityPolicy::Lossy ==> forall|i: int|
            0 <= i < r@.len() ==> r@[i] != RoundTripOutcome::Failed(RoundTripFault::Mismatch),
{
    let mut out: Vec<RoundTripOutcome> = Vec::new();
    let bare = match decode_from_slice::<T>(data) {
        None => RoundTripOutcome::Skipped,
        Some(v) => round_trip_value::<T>(&v, policy),
    };
    out.push(bare);
    let optional = match decode_from_slice::<Option<T>>(data) {
        None => RoundTripOutcome::Skipped,
        Some(v) => round_trip_value::<Option<T>>(&v, policy),
    };
    out.push(optional);
    let sequence = match decode_from_slice::<Vec<T>>(data) {
        None => RoundTripOutcome::Skipped,
        Some(v) => round_trip_value::<Vec<T>>(&v, policy),
    };
    out.push(sequence);
    out
}

} // verus!
