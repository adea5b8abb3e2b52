//! The entry-point driver: one pass of the whole scalar corpus over one
//! input, three wrapper shapes per member, every attempt independent of the
//! others.

use vstd::prelude::*;
use crate::codec::from_bytes;
use crate::corpus::{policy, policy_spec, shapes_spec, EqualityPolicy, TypeDescriptor};
use crate::outcome::RoundTripOutcome;

verus! {

/// The corpus members whose decode and encode calls the library drives
/// itself: every scalar except the two floats, in corpus order. The floats
/// and the composite members are driven by the embedding program in the
/// same pass, through `from_bytes` and the equality functions.
pub open spec fn scalar_corpus_spec() -> Seq<TypeDescriptor> {
    seq![
        TypeDescriptor::Bool,
        TypeDescriptor::I8,
        TypeDescriptor::I16,
        TypeDescriptor::I32,
        TypeDescriptor::I64,
        TypeDescriptor::I128,
        TypeDescriptor::U8,
        TypeDescriptor::U16,
        TypeDescriptor::U32,
        TypeDescriptor::U64,
        TypeDescriptor::U128,
        TypeDescriptor::Char,
        TypeDescriptor::Text,
        TypeDescriptor::Unit,
    ]
}

/// Drives the three wrapper shapes of every scalar corpus member against
/// `data`, in corpus order, and returns one verdict per attempt: three
/// consecutive verdicts (bare, optional, sequence) per member. No attempt
/// blocks any other; the pass always covers the whole scalar corpus, and
/// every scalar member is judged under the exact policy, as `policy_spec`
/// assigns it.
pub fn run_scalar_corpus(data: &[u8]) -> (r: Vec<RoundTripOutcome>)
    ensures
        r@.len() == scalar_corpus_spec().len() * shapes_spec().len(),
{
    let mut out: Vec<RoundTripOutcome> = Vec::new();
    let mut part = from_bytes::<bool>(data, policy(TypeDescriptor::Bool));
    out.append(&mut part);
    let mut part = from_bytes::<i8>(data, policy(TypeDescriptor::I8));
    out.append(&mut part);
    let mut part = from_bytes::<i16>(data, policy(TypeDescriptor::I16));
    out.append(&mut part);
    let mut part = from_bytes::<i32>(data, policy(TypeDescriptor::I32));
    out.append(&mut part);
    let mut part = from_bytes::<i64>(data, policy(TypeDescriptor::I64));
    out.append(&mut part);
    let mut part = from_bytes::<i128>(data, policy(TypeDescriptor::I128));
    out.append(&mut part);
    let mut part = from_bytes::<u8>(data, policy(TypeDescriptor::U8));
    out.append(&mut part);
    let mut part = from_bytes::<u16>(data, policy(TypeDescriptor::U16));
    out.append(&mut part);
    let mut part = from_bytes::<u32>(data, policy(TypeDescriptor::U32));
    out.append(&mut part);
    let mut part = from_bytes::<u64>(data, policy(TypeDescriptor::U64));
    out.append(&mut part);
    let mut part = from_bytes::<u128>(data, policy(TypeDescriptor::U128));
    out.append(&mut part);
    let mut part = from_bytes::<char>(data, policy(TypeDescriptor::Char));
    out.append(&mut part);
    let mut part = from_bytes::<String>(data, policy(TypeDescriptor::Text));
    out.append(&mut part);
    let mut part = from_bytes::<()>(data, policy(TypeDescriptor::Unit));
    out.append(&mut part);
    proof {
        assert(scalar_corpus_spec().len() == 14);
        assert(shapes_spec().len() == 3);
    }
    out
}

/// Every member that the scalar pass drives is judged under the exact
/// policy: no float is reachable through any scalar shape.
pub proof fn lemma_scalar_corpus_is_exact()
    ensures
        forall|i: int|
            0 <= i < scalar_corpus_spec().len() ==> policy_spec(scalar_corpus_spec()[i])
                == EqualityPolicy::Exact,
{
}

/// Returns the position of the first failed attempt in a pass, if any: the
/// index it returns holds a failure, everything before it holds none, and
/// `None` certifies a pass without any failure at all.
pub fn first_failure(outcomes: &Vec<RoundTripOutcome>) -> (r: Option<usize>)
    ensures
        match r {
            Some(i) => {
                &&& i < outcomes@.len()
                &&& outcomes@[i as int] is Failed
                &&& forall|j: int| 0 <= j < i ==> !(outcomes@[j] is Failed)
            },
            None => forall|j: int| 0 <= j < outcomes@.len() ==> !(outcomes@[j] is Failed),
        },
{
    let mut i: usize = 0;
    while i < outcomes.len()
        invariant
            i <= outcomes@.len(),
            forall|j: int| 0 <= j < i ==> !(outcomes@[j] is Failed),
        decreases outcomes@.len() - i,
    {
        if matches!(outcomes[i], RoundTripOutcome::Failed(_)) {
            return Some(i);
        }
        i = i + 1;
    }
    None
}

} // verus!
