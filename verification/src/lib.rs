//! A differential round-trip harness for the BSER binary object
//! serialization codec. One arbitrary byte string is attempted as every
//! member of a fixed corpus of type shapes, each in three wrapper forms;
//! every value that decodes is re-encoded and decoded again, and the
//! attempt is judged under the type's equality policy: exact value
//! identity for every shape through which no float is reachable, mere
//! round-trip completion where one is. The judging rule, the corpus and
//! its policies, the structural equality of the composite shapes, and the
//! driving of the matrix are verified; the codec under test is called
//! through two trusted wrappers and nothing is assumed of what it returns.

pub mod corpus;
pub mod outcome;
pub mod codec;
pub mod values;
pub mod harness;
