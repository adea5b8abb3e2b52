//! The fixed corpus of type shapes that the harness exercises, the wrapper
//! shapes layered over each of them, and the equality policy that decides,
//! per type, whether a round trip must reproduce the value exactly.

use vstd::prelude::*;

verus! {

/// Identity of one member of the type corpus. A descriptor is not a runtime
/// value: it only names which decode/encode pair the harness drives and which
/// equality policy applies to it. `F32` and `F64` stand for the 32-bit and
/// 64-bit floating-point scalars; `Text` for a text string; `Plain` for the
/// payload-free tagged union; `General` for the union with heterogeneous
/// payloads; `FloatUnion` for the union carrying an optional 32-bit float;
/// `Record` and `FloatRecord` for the two nested record types.
#[derive(Clone, Copy, PartialEq, Eq, Structural, Debug)]
pub enum TypeDescriptor {
    Bool,
    I8,
    I16,
    I32,
    I64,
    I128,
    U8,
    U16,
    U32,
    U64,
    U128,
    F32,
    F64,
    Char,
    Text,
    Unit,
    Plain,
    General,
    FloatUnion,
    Record,
    FloatRecord,
}

/// The three forms in which every corpus member is attempted against the
/// same input bytes: the bare type, the optional wrapper, and the sequence
/// wrapper.
#[derive(Clone, Copy, PartialEq, Eq, Structural, Debug)]
pub enum WrapperShape {
    Bare,
    Optional,
    Sequence,
}

/// Whether a round trip of a type must reproduce the decoded value exactly,
/// or only complete without error.
#[derive(Clone, Copy, PartialEq, Eq, Structural, Debug)]
pub enum EqualityPolicy {
    Exact,
    Lossy,
}

/// The equality policy of each corpus member: lossy exactly where a
/// floating-point value is reachable through the shape under test (the two
/// float scalars, the union carrying an optional float, and the record with
/// a float field), exact everywhere else.
pub open spec fn policy_spec(t: TypeDescriptor) -> EqualityPolicy {
    match t {
        TypeDescriptor::F32 => EqualityPolicy::Lossy,
        TypeDescriptor::F64 => EqualityPolicy::Lossy,
        TypeDescriptor::FloatUnion => EqualityPolicy::Lossy,
        TypeDescriptor::FloatRecord => EqualityPolicy::Lossy,
        _ => EqualityPolicy::Exact,
    }
}

/// Returns the equality policy of `t`, as `policy_spec` fixes it.
pub fn policy(t: TypeDescriptor) -> (r: EqualityPolicy)
    ensures
        r == policy_spec(t),
{
    match t {
        TypeDescriptor::F32 => EqualityPolicy::Lossy,
        TypeDescriptor::F64 => EqualityPolicy::Lossy,
        TypeDescriptor::FloatUnion => EqualityPolicy::Lossy,
        TypeDescriptor::FloatRecord => EqualityPolicy::Lossy,
        _ => EqualityPolicy::Exact,
    }
}

/// The corpus in the fixed order in which the entry point drives it.
pub open spec fn corpus_spec() -> Seq<TypeDescriptor> {
    seq![
        TypeDescriptor::Bool,
        TypeDescriptor::I8,
        TypeDescriptor::I16,
        TypeDescriptor::I32,
        TypeDescriptor::I64,
        TypeDescriptor::I128,
        TypeDescriptor::U8,
        TypeDescriptor::U16,
        TypeDescriptor::U32,
        TypeDescriptor::U64,
        TypeDescriptor::U128,
        TypeDescriptor::F32,
        TypeDescriptor::F64,
        TypeDescriptor::Char,
        TypeDescriptor::Text,
        TypeDescriptor::Unit,
        TypeDescriptor::Plain,
        TypeDescriptor::General,
        TypeDescriptor::FloatUnion,
        TypeDescriptor::Record,
        TypeDescriptor::FloatRecord,
    ]
}

/// The three wrapper shapes in the fixed order in which each corpus member
/// is attempted.
pub open spec fn shapes_spec() -> Seq<WrapperShape> {
    seq![WrapperShape::Bare, WrapperShape::Optional, WrapperShape::Sequence]
}

/// Returns the whole corpus, in driving order.
pub fn corpus() -> (r: Vec<TypeDescriptor>)
    ensures
        r@ == corpus_spec(),
{
    let r: Vec<TypeDescriptor> = vec![
        TypeDescriptor::Bool,
        TypeDescriptor::I8,
        TypeDescriptor::I16,
        TypeDescriptor::I32,
        TypeDescriptor::I64,
        TypeDescriptor::I128,
        TypeDescriptor::U8,
        TypeDescriptor::U16,
        TypeDescriptor::U32,
        TypeDescriptor::U64,
        TypeDescriptor::U128,
        TypeDescriptor::F32,
        TypeDescriptor::F64,
        TypeDescriptor::Char,
        TypeDescriptor::Text,
        TypeDescriptor::Unit,
        TypeDescriptor::Plain,
        TypeDescriptor::General,
        TypeDescriptor::FloatUnion,
        TypeDescriptor::Record,
        TypeDescriptor::FloatRecord,
    ];
    proof {
        assert(r@ =~= corpus_spec());
    }
    r
}

} // verus!
