//! The value shapes the diff protocol composes over, and one concrete
//! type of each shape: a primitive leaf (`u64`), struct-shaped products
//! with named fields, positional fields or no fields at all, an
//! enum-shaped sum ([`MyEnum`]), and a product nesting all of them
//! ([`CombinedStruct`]).
//!
//! Each implementation of [`LazyDiff`] here spells out the composition
//! rules for its shape; a generator reading a type's field or variant
//! list would emit exactly these.

use vstd::prelude::*;
use crate::diff::{iter_model, labeled, lemma_labeled, DiffIter, LazyDiff, Record};

verus! {

/// An enum-shaped sum: mutually exclusive variants, with named fields,
/// positional fields or none.
#[derive(Debug, PartialEq, Clone)]
pub enum MyEnum {
    One,
    Two,
    Three { field: u64 },
    Four(u64, u64),
}

/// A borrowed view of one value a difference record can point at: one
/// variant per type this crate reports whole values of — primitive
/// leaves, and sum values whose variants did not match.
#[derive(Clone, Copy)]
pub enum ValueRef<'x> {
    U64(&'x u64),
    Sum(&'x MyEnum),
}

/// The value a [`ValueRef`] denotes, for specification purposes.
pub enum DiffValue {
    U64(u64),
    Sum(MyEnum),
}

impl<'x> View for ValueRef<'x> {
    type V = DiffValue;

    open spec fn view(&self) -> DiffValue {
        match *self {
            ValueRef::U64(r) => DiffValue::U64(*r),
            ValueRef::Sum(r) => DiffValue::Sum(*r),
        }
    }
}

impl LazyDiff for u64 {
    /// The base case of the protocol: equal leaves yield nothing; unequal
    /// leaves yield one record with an empty path, left for the
    /// enclosing frames to label.
    open spec fn diff_model(&self, other: &Self) -> Seq<Record> {
        if *self == *other {
            Seq::empty()
        } else {
            seq![
                Record {
                    path: Seq::empty(),
                    left: DiffValue::U64(*self),
                    right: DiffValue::U64(*other),
                },
            ]
        }
    }

    proof fn lemma_diff_self_empty(&self) {
    }

    fn lazy_diff_iter<'a, 'b: 'a>(&'a self, other: &'b Self) -> (it: DiffIter<'a, 'b>) {
        if *self == *other {
            DiffIter::Done
        } else {
            DiffIter::Leaf { left: ValueRef::U64(self), right: ValueRef::U64(other) }
        }
    }
}

/// A product with three named primitive fields.
#[derive(PartialEq, Clone)]
pub struct SimpleStruct {
    pub field1: u64,
    pub field2: u64,
    pub field3: u64,
}

impl LazyDiff for SimpleStruct {
    /// Product composition: each field's records, labelled with that
    /// field's name, chained in declaration order.
    open spec fn diff_model(&self, other: &Self) -> Seq<Record> {
        labeled(self.field1.diff_model(&other.field1), "field1"@) + labeled(
            self.field2.diff_model(&other.field2),
            "field2"@,
        ) + labeled(self.field3.diff_model(&other.field3), "field3"@)
    }

    proof fn lemma_diff_self_empty(&self) {
    }

    fn lazy_diff_iter<'a, 'b: 'a>(&'a self, other: &'b Self) -> (it: DiffIter<'a, 'b>) {
        let lab1 = DiffIter::Labeled {
            label: "field1",
            inner: Box::new(self.field1.lazy_diff_iter(&other.field1)),
        };
        let lab2 = DiffIter::Labeled {
            label: "field2",
            inner: Box::new(self.field2.lazy_diff_iter(&other.field2)),
        };
        let lab3 = DiffIter::Labeled {
            label: "field3",
            inner: Box::new(self.field3.lazy_diff_iter(&other.field3)),
        };
        let front = DiffIter::Chain { first: Box::new(lab1), second: Box::new(lab2) };
        let it = DiffIter::Chain { first: Box::new(front), second: Box::new(lab3) };
        proof {
            reveal_with_fuel(iter_model, 4);
        }
        it
    }
}

/// A product with positional fields; their labels are the indices.
#[derive(PartialEq, Clone)]
pub struct StructUnnamedFields(pub u64, pub u64);

impl LazyDiff for StructUnnamedFields {
    open spec fn diff_model(&self, other: &Self) -> Seq<Record> {
        labeled(self.0.diff_model(&other.0), "0"@) + labeled(self.1.diff_model(&other.1), "1"@)
    }

    proof fn lemma_diff_self_empty(&self) {
    }

    fn lazy_diff_iter<'a, 'b: 'a>(&'a self, other: &'b Self) -> (it: DiffIter<'a, 'b>) {
        let lab0 = DiffIter::Labeled { label: "0", inner: Box::new(self.0.lazy_diff_iter(&other.0)) };
        let lab1 = DiffIter::Labeled { label: "1", inner: Box::new(self.1.lazy_diff_iter(&other.1)) };
        let it = DiffIter::Chain { first: Box::new(lab0), second: Box::new(lab1) };
        proof {
            reveal_with_fuel(iter_model, 3);
        }
        it
    }
}

/// A product with no fields: two values of it never differ.
#[derive(PartialEq, Clone)]
pub struct DummyType3;

impl LazyDiff for DummyType3 {
    open spec fn diff_model(&self, other: &Self) -> Seq<Record> {
        Seq::empty()
    }

    proof fn lemma_diff_self_empty(&self) {
    }

    fn lazy_diff_iter<'a, 'b: 'a>(&'a self, other: &'b Self) -> (it: DiffIter<'a, 'b>) {
        DiffIter::Done
    }
}

impl LazyDiff for MyEnum {
    /// Sum composition: a matched variant is diffed fieldwise, each
    /// record labelled with the compound `"Variant.field"` text in one
    /// piece; two different variants are irreconcilable at leaf level
    /// and yield exactly one record for the whole values, with an empty
    /// path.
    open spec fn diff_model(&self, other: &Self) -> Seq<Record> {
        match (*self, *other) {
            (MyEnum::One, MyEnum::One) => Seq::empty(),
            (MyEnum::Two, MyEnum::Two) => Seq::empty(),
            (MyEnum::Three { field: a }, MyEnum::Three { field: b }) => labeled(
                a.diff_model(&b),
                "Three.field"@,
            ),
            (MyEnum::Four(a0, a1), MyEnum::Four(b0, b1)) => labeled(a0.diff_model(&b0), "Four.0"@)
                + labeled(a1.diff_model(&b1), "Four.1"@),
            _ => seq![
                Record {
                    path: Seq::empty(),
                    left: DiffValue::Sum(*self),
                    right: DiffValue::Sum(*other),
                },
            ],
        }
    }

    proof fn lemma_diff_self_empty(&self) {
    }

    fn lazy_diff_iter<'a, 'b: 'a>(&'a self, other: &'b Self) -> (it: DiffIter<'a, 'b>) {
        match (self, other) {
            (MyEnum::One, MyEnum::One) => DiffIter::Done,
            (MyEnum::Two, MyEnum::Two) => DiffIter::Done,
            (MyEnum::Three { field: a }, MyEnum::Three { field: b }) => DiffIter::Labeled {
                label: "Three.field",
                inner: Box::new(a.lazy_diff_iter(b)),
            },
            (MyEnum::Four(a0, a1), MyEnum::Four(b0, b1)) => {
                let lab0 = DiffIter::Labeled {
                    label: "Four.0",
                    inner: Box::new(a0.lazy_diff_iter(b0)),
                };
                let lab1 = DiffIter::Labeled {
                    label: "Four.1",
                    inner: Box::new(a1.lazy_diff_iter(b1)),
                };
                let it = DiffIter::Chain { first: Box::new(lab0), second: Box::new(lab1) };
                proof {
                    reveal_with_fuel(iter_model, 3);
                }
                it
            },
            _ => DiffIter::Leaf { left: ValueRef::Sum(self), right: ValueRef::Sum(other) },
        }
    }
}

/// A product nesting every other shape of this module.
#[derive(PartialEq, Clone)]
pub struct CombinedStruct {
    pub field1: SimpleStruct,
    pub field2: StructUnnamedFields,
    pub field3: MyEnum,
    pub field4: DummyType3,
}

impl LazyDiff for CombinedStruct {
    open spec fn diff_model(&self, other: &Self) -> Seq<Record> {
        labeled(self.field1.diff_model(&other.field1), "field1"@) + labeled(
            self.field2.diff_model(&other.field2),
            "field2"@,
        ) + labeled(self.field3.diff_model(&other.field3), "field3"@) + labeled(
            self.field4.diff_model(&other.field4),
            "field4"@,
        )
    }

    proof fn lemma_diff_self_empty(&self) {
        self.field1.lemma_diff_self_empty();
        self.field2.lemma_diff_self_empty();
        self.field3.lemma_diff_self_empty();
        self.field4.lemma_diff_self_empty();
    }

    fn lazy_diff_iter<'a, 'b: 'a>(&'a self, other: &'b Self) -> (it: DiffIter<'a, 'b>) {
        let lab1 = DiffIter::Labeled {
            label: "field1",
            inner: Box::new(self.field1.lazy_diff_iter(&other.field1)),
        };
        let lab2 = DiffIter::Labeled {
            label: "field2",
            inner: Box::new(self.field2.lazy_diff_iter(&other.field2)),
        };
        let lab3 = DiffIter::Labeled {
            label: "field3",
            inner: Box::new(self.field3.lazy_diff_iter(&other.field3)),
        };
        let lab4 = DiffIter::Labeled {
            label: "field4",
            inner: Box::new(self.field4.lazy_diff_iter(&other.field4)),
        };
        let front = DiffIter::Chain { first: Box::new(lab1), second: Box::new(lab2) };
        let front = DiffIter::Chain { first: Box::new(front), second: Box::new(lab3) };
        let it = DiffIter::Chain { first: Box::new(front), second: Box::new(lab4) };
        proof {
            reveal_with_fuel(iter_model, 5);
        }
        it
    }
}

/// Whether two sum values carry the same variant.
pub open spec fn same_variant(a: MyEnum, b: MyEnum) -> bool {
    match (a, b) {
        (MyEnum::One, MyEnum::One) => true,
        (MyEnum::Two, MyEnum::Two) => true,
        (MyEnum::Three { .. }, MyEnum::Three { .. }) => true,
        (MyEnum::Four(..), MyEnum::Four(..)) => true,
        _ => false,
    }
}

/// Primitive law: equal leaves diff to the empty sequence; unequal
/// leaves diff to exactly one record whose path is empty at that frame
/// and whose sides are the two values themselves.
pub proof fn lemma_primitive_diff(a: u64, b: u64)
    ensures
        a == b ==> a.diff_model(&b).len() == 0,
        a != b ==> a.diff_model(&b) == seq![
            (Record { path: Seq::empty(), left: DiffValue::U64(a), right: DiffValue::U64(b) }),
        ],
{
}

/// Product ordering law: a product's records are its fields' records in
/// field declaration order, each field's records carrying exactly that
/// field's label; `lemma_labeled` gives the per-record path shape.
pub proof fn lemma_product_order(a: SimpleStruct, b: SimpleStruct)
    ensures
        a.diff_model(&b) == labeled(a.field1.diff_model(&b.field1), "field1"@) + labeled(
            a.field2.diff_model(&b.field2),
            "field2"@,
        ) + labeled(a.field3.diff_model(&b.field3), "field3"@),
{
}

/// Sum same-variant law: two same-variant sum values with one differing
/// payload field diff to one record whose whole path is the single
/// compound label `"Variant.field"` — variant name and field label as
/// one pushed piece, deliberately not two path segments.
pub proof fn lemma_sum_same_variant(a: u64, b: u64)
    requires
        a != b,
    ensures
        ({
            let d = (MyEnum::Three { field: a }).diff_model(&(MyEnum::Three { field: b }));
            &&& d.len() == 1
            &&& d[0].path =~= seq!["Three.field"@]
            &&& d[0].left == DiffValue::U64(a)
            &&& d[0].right == DiffValue::U64(b)
        }),
{
    let d = (MyEnum::Three { field: a }).diff_model(&(MyEnum::Three { field: b }));
    lemma_labeled(a.diff_model(&b), "Three.field"@);
    assert(Seq::<Seq<char>>::empty().push("Three.field"@) =~= seq!["Three.field"@]);
}

/// Sum cross-variant law: two sum values of different variants diff to
/// exactly one record, its path empty at that frame, referencing the two
/// whole values, whatever the variants' fields hold.
pub proof fn lemma_sum_cross_variant(a: MyEnum, b: MyEnum)
    requires
        !same_variant(a, b),
    ensures
        a.diff_model(&b) == seq![
            (Record { path: Seq::empty(), left: DiffValue::Sum(a), right: DiffValue::Sum(b) }),
        ],
{
}


} // verus!
