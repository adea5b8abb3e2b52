//! The composite corpus members whose values the harness reads: the
//! payload-free union, the union with heterogeneous payloads, and the plain
//! nested record, with their structural equality verified. The two
//! float-bearing composite shapes are judged under the lossy policy and
//! their values are never read, so they live wholly with the codec-facing
//! program; here they exist only as corpus descriptors and policies.

use vstd::prelude::*;

verus! {

/// The payload-free tagged union.
#[derive(Clone, Copy, PartialEq, Eq, Structural, Debug)]
pub enum PlainEnum {
    A,
    B,
    C,
    D,
}

/// The tagged union with heterogeneous payloads: a narrow integer, a unit
/// payload, a sequence of the plain union, and a wide integer.
#[derive(Debug)]
pub enum Enum {
    A(u8),
    B(()),
    C(Vec<PlainEnum>),
    D(i128),
}

/// The plain nested record: unit, a narrow integer, a sequence of the
/// general union, and a tuple of a wide integer, a signed integer, unit,
/// the plain union and a text string.
#[derive(Debug)]
pub struct Struct {
    pub _a: (),
    pub _b: u8,
    pub _c: Vec<Enum>,
    pub _d: (u128, i8, (), PlainEnum, String),
}

/// Structural equality of two general-union values: same variant, equal
/// payloads; sequences are equal element for element, in order.
pub open spec fn enum_eq_spec(a: Enum, b: Enum) -> bool {
    match a {
        Enum::A(x) => match b {
            Enum::A(y) => x == y,
            _ => false,
        },
        Enum::B(_) => match b {
            Enum::B(_) => true,
            _ => false,
        },
        Enum::C(xs) => match b {
            Enum::C(ys) => xs@ == ys@,
            _ => false,
        },
        Enum::D(x) => match b {
            Enum::D(y) => x == y,
            _ => false,
        },
    }
}

/// Structural equality of two plain records: every field equal, the
/// sequence field element for element under `enum_eq_spec`, the text field
/// character for character.
pub open spec fn struct_eq_spec(a: Struct, b: Struct) -> bool {
    &&& a._b == b._b
    &&& a._c@.len() == b._c@.len()
    &&& forall|i: int| 0 <= i < a._c@.len() ==> enum_eq_spec(a._c@[i], b._c@[i])
    &&& a._d.0 == b._d.0
    &&& a._d.1 == b._d.1
    &&& a._d.3 == b._d.3
    &&& a._d.4@ == b._d.4@
}

/// Decides structural equality of two general-union values, exactly as
/// `enum_eq_spec` fixes it.
pub fn enum_eq(a: &Enum, b: &Enum) -> (r: bool)
    ensures
        r == enum_eq_spec(*a, *b),
{
    match a {
        Enum::A(x) => match b {
            Enum::A(y) => *x == *y,
            _ => false,
        },
        Enum::B(_) => match b {
            Enum::B(_) => true,
            _ => false,
        },
        Enum::C(xs) => match b {
            Enum::C(ys) => {
                if xs.len() != ys.len() {
                    return false;
                }
                let mut i: usize = 0;
                while i < xs.len()
                    invariant
                        *a == Enum::C(*xs),
                        *b == Enum::C(*ys),
                        i <= xs@.len(),
                        xs@.len() == ys@.len(),
                        forall|j: int| 0 <= j < i ==> xs@[j] == ys@[j],
                    decreases xs@.len() - i,
                {
                    if !(xs[i] == ys[i]) {
                        return false;
                    }
                    i = i + 1;
                }
                proof {
                    assert(xs@ =~= ys@);
                }
                true
            },
            _ => false,
        },
        Enum::D(x) => match b {
            Enum::D(y) => *x == *y,
            _ => false,
        },
    }
}

/// Decides structural equality of two plain records, exactly as
/// `struct_eq_spec` fixes it.
pub fn struct_eq(a: &Struct, b: &Struct) -> (r: bool)
    ensures
        r == struct_eq_spec(*a, *b),
{
    if a._b != b._b {
        return false;
    }
    if a._c.len() != b._c.len() {
        return false;
    }
    let mut i: usize = 0;
    while i < a._c.len()
        invariant
            i <= a._c@.len(),
            a._c@.len() == b._c@.len(),
            forall|j: int| 0 <= j < i ==> enum_eq_spec(a._c@[j], b._c@[j]),
        decreases a._c@.len() - i,
    {
        if !enum_eq(&a._c[i], &b._c[i]) {
            return false;
        }
        i = i + 1;
    }
    if a._d.0 != b._d.0 {
        return false;
    }
    if a._d.1 != b._d.1 {
        return false;
    }
    if !(a._d.3 == b._d.3) {
        return false;
    }
    a._d.4 == b._d.4
}

} // verus!
