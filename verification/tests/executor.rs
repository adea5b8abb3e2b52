//! The executor's fault classification, driven through the real codec by
//! test-local types whose encode and decode sides disagree on purpose: one
//! whose decode forgets the value, and one whose decode always refuses.

use bser_roundtrip::codec::round_trip_value;
use bser_roundtrip::corpus::EqualityPolicy;
use bser_roundtrip::outcome::{RoundTripFault, RoundTripOutcome};

/// Encodes faithfully, but every decode comes back as zero: a stand-in for
/// a codec that loses information.
#[derive(Debug)]
struct Forgetful(u8);

impl PartialEq for Forgetful {
    fn eq(&self, other: &Self) -> bool {
        self.0 == other.0
    }
}

impl serde::Serialize for Forgetful {
    fn serialize<S: serde::Serializer>(&self, s: S) -> Result<S::Ok, S::Error> {
        s.serialize_u8(self.0)
    }
}

impl<'de> serde::Deserialize<'de> for Forgetful {
    fn deserialize<D: serde::Deserializer<'de>>(d: D) -> Result<Self, D::Error> {
        let _ignored = <u8 as serde::Deserialize>::deserialize(d)?;
        Ok(Forgetful(0))
    }
}

/// Encodes faithfully, but refuses every decode: a stand-in for a codec
/// whose encoding is not self-consistent.
#[derive(Debug)]
struct Refusing;

impl PartialEq for Refusing {
    fn eq(&self, _other: &Self) -> bool {
        true
    }
}

impl serde::Serialize for Refusing {
    fn serialize<S: serde::Serializer>(&self, s: S) -> Result<S::Ok, S::Error> {
        s.serialize_u8(7)
    }
}

impl<'de> serde::Deserialize<'de> for Refusing {
    fn deserialize<D: serde::Deserializer<'de>>(d: D) -> Result<Self, D::Error> {
        Err(serde::de::Error::custom("refused on purpose"))
    }
}

#[test]
fn a_lossy_codec_is_a_mismatch_under_the_exact_policy() {
    assert_eq!(
        round_trip_value::<Forgetful>(&Forgetful(3), EqualityPolicy::Exact),
        RoundTripOutcome::Failed(RoundTripFault::Mismatch)
    );
}

#[test]
fn the_lossy_policy_tolerates_a_changed_value() {
    assert_eq!(
        round_trip_value::<Forgetful>(&Forgetful(3), EqualityPolicy::Lossy),
        RoundTripOutcome::Passed
    );
}

#[test]
fn an_unchanged_value_passes_under_the_exact_policy() {
    assert_eq!(
        round_trip_value::<Forgetful>(&Forgetful(0), EqualityPolicy::Exact),
        RoundTripOutcome::Passed
    );
}

#[test]
fn a_non_self_consistent_encoding_is_a_redecode_fault() {
    assert_eq!(
        round_trip_value::<Refusing>(&Refusing, EqualityPolicy::Exact),
        RoundTripOutcome::Failed(RoundTripFault::Redecode)
    );
    // the re-decode fault is reported under either policy
    assert_eq!(
        round_trip_value::<Refusing>(&Refusing, EqualityPolicy::Lossy),
        RoundTripOutcome::Failed(RoundTripFault::Redecode)
    );
}
