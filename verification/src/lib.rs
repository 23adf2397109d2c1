//! Field-level structural diffing: given two values of the same composite
//! type, lazily enumerate the leaf fields that differ, each tagged with a
//! dotted path (such as `field1.field2` or `field3.Three.field`) locating
//! it within the value.
//!
//! The pieces are a path accumulator ([`path::FieldIdentifier`]), the diff
//! protocol ([`diff::LazyDiff`]) with its lazy record sequence
//! ([`diff::DiffIter`]), and, in [`shapes`], the composition of those
//! pieces over primitive, struct-shaped and enum-shaped types.

pub mod diff;
pub mod path;
pub mod shapes;

pub use diff::{DiffData, DiffIter, LazyDiff, Record};
pub use path::FieldIdentifier;
pub use shapes::{CombinedStruct, DiffValue, DummyType3, MyEnum, SimpleStruct, StructUnnamedFields, ValueRef};
