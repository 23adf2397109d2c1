//! The diff protocol: a lazy, finite, single-pass sequence of difference
//! records, and the composition rules that build one sequence out of the
//! sequences of a value's parts.
//!
//! A sequence is a [`DiffIter`], a small state machine with one `next`
//! operation. Its ghost meaning is [`iter_model`]: the records it has
//! still to yield. Product (struct) composition labels each field's
//! records with that field's name and chains the fields in declaration
//! order; sum (enum) composition descends into a matched variant's fields
//! or, for two different variants, reports the whole values as one
//! atomic difference.

use vstd::prelude::*;
use crate::path::{FieldIdentifier, rendered};
use crate::shapes::{DiffValue, ValueRef};

verus! {

/// Ghost description of one difference record: the accumulated path
/// labels in storage order (innermost frame's label first) and the two
/// values reported at that path.
pub struct Record {
    pub path: Seq<Seq<char>>,
    pub left: DiffValue,
    pub right: DiffValue,
}

/// Push one label onto every record of a sequence, keeping the order.
pub open spec fn labeled(records: Seq<Record>, label: Seq<char>) -> Seq<Record> {
    records.map(
        |i: int, r: Record| (Record { path: r.path.push(label), left: r.left, right: r.right }),
    )
}

/// Labelling keeps the length and the order of a record sequence and
/// pushes exactly the given label onto each record's path.
pub proof fn lemma_labeled(records: Seq<Record>, label: Seq<char>)
    ensures
        labeled(records, label).len() == records.len(),
        forall|i: int|
            0 <= i < records.len() ==> labeled(records, label)[i] == (Record {
                path: records[i].path.push(label),
                left: records[i].left,
                right: records[i].right,
            }),
{
}

/// One observed inequality: the field path accumulated so far, plus the
/// two differing values, borrowed from the compared inputs for the whole
/// lifetime of the iteration.
pub struct DiffData<'a, 'b> {
    pub field: FieldIdentifier,
    pub self_value: ValueRef<'a>,
    pub other_value: ValueRef<'b>,
}

impl<'a, 'b> View for DiffData<'a, 'b> {
    type V = Record;

    open spec fn view(&self) -> Record {
        Record { path: self.field@, left: self.self_value@, right: self.other_value@ }
    }
}

impl<'a, 'b> DiffData<'a, 'b> {
    /// Tag this record with the label of the enclosing frame it is about
    /// to bubble up through.
    pub fn push_field(self, field: &'static str) -> (r: Self)
        ensures
            r@ == (Record {
                path: self@.path.push(field@),
                left: self@.left,
                right: self@.right,
            }),
    {
        let mut data = self;
        data.field.push(field);
        data
    }

    /// The rendered path of this record, dot-joined, outermost label
    /// first.
    pub fn path_string(&self) -> (r: String)
        ensures
            r@ == rendered(self@.path),
    {
        self.field.to_string()
    }
}

/// A lazy difference sequence, advanced one record at a time.
///
/// Each constructor is one composition frame: `Done` has nothing left;
/// `Leaf` holds the single record of one observed mismatch, its path
/// still empty; `Labeled` passes its operand's records through, pushing
/// one label onto each; `Chain` yields all of its first operand's
/// records, then all of its second's.
pub enum DiffIter<'a, 'b> {
    Done,
    Leaf { left: ValueRef<'a>, right: ValueRef<'b> },
    Labeled { label: &'static str, inner: Box<DiffIter<'a, 'b>> },
    Chain { first: Box<DiffIter<'a, 'b>>, second: Box<DiffIter<'a, 'b>> },
}

/// The records a `DiffIter` has still to yield, in order.
pub open spec fn iter_model<'a, 'b>(it: DiffIter<'a, 'b>) -> Seq<Record>
    decreases it,
{
    match it {
        DiffIter::Done => Seq::empty(),
        DiffIter::Leaf { left, right } => seq![
            Record { path: Seq::empty(), left: left@, right: right@ },
        ],
        DiffIter::Labeled { label, inner } => labeled(iter_model(*inner), label@),
        DiffIter::Chain { first, second } => iter_model(*first) + iter_model(*second),
    }
}

impl<'a, 'b> View for DiffIter<'a, 'b> {
    type V = Seq<Record>;

    open spec fn view(&self) -> Seq<Record> {
        iter_model(*self)
    }
}

impl<'a, 'b> DiffIter<'a, 'b> {
    /// Advance by one: hand back the remaining sequence and the next
    /// record, if one is left.
    ///
    /// Evaluation is as lazy as the sequence is consumed: while the
    /// first operand of a `Chain` still yields records, the second
    /// operand is handed back untouched (the final `ensures` clause), so
    /// a later field's sub-sequence is only driven once every earlier
    /// field's is exhausted.
    pub fn step(self) -> (r: (Self, Option<DiffData<'a, 'b>>))
        ensures
            (match r.1 {
                Option::None => self@.len() == 0 && r.0@.len() == 0,
                Option::Some(d) => self@.len() > 0 && d@ == self@[0] && r.0@ == self@.drop_first(),
            }),
            (self matches DiffIter::Chain { first, second } ==> iter_model(*first).len() > 0
                ==> {
                &&& r.0 matches DiffIter::Chain { first: f2, second: s2 }
                &&& s2 == second
                &&& iter_model(*f2) == iter_model(*first).drop_first()
            }),
        decreases self,
    {
        match self {
            DiffIter::Done => (DiffIter::Done, Option::None),
            DiffIter::Leaf { left, right } => (
                DiffIter::Done,
                Option::Some(
                    DiffData {
                        field: FieldIdentifier::new(),
                        self_value: left,
                        other_value: right,
                    },
                ),
            ),
            DiffIter::Labeled { label, inner } => {
                let ghost inner_model = iter_model(*inner);
                let (rest, out) = (*inner).step();
                match out {
                    Option::None => (
                        DiffIter::Labeled { label, inner: Box::new(rest) },
                        Option::None,
                    ),
                    Option::Some(d) => {
                        let out_data = d.push_field(label);
                        proof {
                            lemma_labeled(inner_model, label@);
                            lemma_labeled(inner_model.drop_first(), label@);
                            assert(labeled(iter_model(rest), label@) =~= labeled(
                                inner_model,
                                label@,
                            ).drop_first());
                        }
                        (DiffIter::Labeled { label, inner: Box::new(rest) }, Option::Some(out_data))
                    },
                }
            },
            DiffIter::Chain { first, second } => {
                let ghost first_model = iter_model(*first);
                let ghost second_model = iter_model(*second);
                let (rest, out) = (*first).step();
                match out {
                    Option::Some(d) => {
                        proof {
                            assert(iter_model(rest) + second_model =~= (first_model
                                + second_model).drop_first());
                        }
                        (DiffIter::Chain { first: Box::new(rest), second }, Option::Some(d))
                    },
                    Option::None => {
                        proof {
                            assert(first_model + second_model =~= second_model);
                        }
                        (*second).step()
                    },
                }
            },
        }
    }

    /// Advance in place: hand out the next difference record, or `None`
    /// once the sequence is exhausted. Consumption is single-pass; an
    /// exhausted sequence stays exhausted.
    pub fn next(&mut self) -> (r: Option<DiffData<'a, 'b>>)
        ensures
            (match r {
                Option::None => old(self)@.len() == 0 && final(self)@.len() == 0,
                Option::Some(d) => old(self)@.len() > 0 && d@ == old(self)@[0] && final(self)@
                    == old(self)@.drop_first(),
            }),
            (*old(self) matches DiffIter::Chain { first, second } ==> iter_model(*first).len() > 0
                ==> {
                &&& *final(self) matches DiffIter::Chain { first: f2, second: s2 }
                &&& s2 == second
                &&& iter_model(*f2) == iter_model(*first).drop_first()
            }),
    {
        let mut taken = DiffIter::Done;
        core::mem::swap(self, &mut taken);
        let (rest, out) = taken.step();
        *self = rest;
        out
    }
}

/// The diff protocol: any two values of one implementing type can be
/// asked for the lazy sequence of their leaf-level differences.
///
/// For a value diffed against itself the sequence is empty — every
/// implementation owes a proof of that law.
pub trait LazyDiff {
    /// The full sequence of difference records that diffing `self`
    /// against `other` yields, in order.
    spec fn diff_model(&self, other: &Self) -> Seq<Record>;

    /// Equality law: diffing a value against itself yields an empty
    /// sequence.
    proof fn lemma_diff_self_empty(&self)
        ensures
            self.diff_model(self).len() == 0,
    ;

    /// Produce the lazy difference sequence for `self` against `other`.
    /// The caller may stop consuming it at any point.
    fn lazy_diff_iter<'a, 'b: 'a>(&'a self, other: &'b Self) -> (it: DiffIter<'a, 'b>)
        ensures
            it@ == self.diff_model(other),
    ;
}

} // verus!
