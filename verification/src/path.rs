//! The path accumulator: an append-only stack of field labels locating a
//! difference within a composite value.
//!
//! Labels are pushed innermost-first, as each enclosing frame of the
//! composition unwinds, so the stack holds the path in reverse; rendering
//! walks the storage backwards and joins the labels with `.`.

use vstd::prelude::*;
use smallvec::SmallVec;

verus! {

/// The backing store for path labels: a `smallvec::SmallVec` keeping up
/// to four labels inline. Opaque to the verifier; what it holds is given
/// by [`small_vec_labels`] through the trusted wrappers below.
#[verifier::external_body]
pub struct LabelStack {
    storage: SmallVec<[&'static str; 4]>,
}

/// The labels a `LabelStack` holds, in storage order (first pushed
/// first), each as its sequence of characters.
pub uninterp spec fn small_vec_labels(v: LabelStack) -> Seq<Seq<char>>;

/// Relies on `smallvec::SmallVec::new`: constructs an empty vector.
#[verifier::external_body]
fn labels_new() -> (r: LabelStack)
    ensures
        small_vec_labels(r) == Seq::<Seq<char>>::empty(),
{
    LabelStack { storage: SmallVec::new() }
}

/// Relies on `smallvec::SmallVec::push`: appends one element at the back.
#[verifier::external_body]
fn labels_push(v: &mut LabelStack, label: &'static str)
    ensures
        small_vec_labels(*final(v)) == small_vec_labels(*old(v)).push(label@),
{
    v.storage.push(label);
}

/// Relies on `smallvec::SmallVec::len`: the number of elements stored.
#[verifier::external_body]
fn labels_len(v: &LabelStack) -> (r: usize)
    ensures
        r == small_vec_labels(*v).len(),
{
    v.storage.len()
}

/// Relies on slice indexing through `smallvec::SmallVec`'s `Deref` to a
/// slice: hands out the element at the given position.
#[verifier::external_body]
fn labels_get(v: &LabelStack, i: usize) -> (r: &'static str)
    requires
        i < small_vec_labels(*v).len(),
    ensures
        r@ == small_vec_labels(*v)[i as int],
{
    v.storage[i]
}

/// The dot-joined text of a label stack: the storage is walked in reverse
/// insertion order, so the last-pushed (outermost) label comes first.
pub open spec fn rendered(labels: Seq<Seq<char>>) -> Seq<char>
    decreases labels.len(),
{
    if labels.len() == 0 {
        Seq::empty()
    } else if labels.len() == 1 {
        labels[0]
    } else {
        labels.last() + seq!['.'] + rendered(labels.drop_last())
    }
}

/// Prepending a label to the stack appends it, after a dot, to the
/// rendered text (unless the stack was empty).
proof fn lemma_rendered_prepend(x: Seq<char>, s: Seq<Seq<char>>)
    ensures
        rendered(seq![x] + s) == if s.len() == 0 { x } else { rendered(s) + seq!['.'] + x },
    decreases s.len(),
{
    let t = seq![x] + s;
    if s.len() == 0 {
        assert(t =~= seq![x]);
    } else {
        assert(t.last() == s.last());
        assert(t.drop_last() =~= seq![x] + s.drop_last());
        lemma_rendered_prepend(x, s.drop_last());
        if s.len() == 1 {
            assert(rendered(t) == rendered(s) + seq!['.'] + x);
        } else {
            assert(rendered(t) =~= rendered(s) + seq!['.'] + x);
        }
    }
}

/// Pushing a label puts it, dot-separated, in front of the rendered
/// text: the last-pushed label belongs to the outermost frame.
pub proof fn lemma_rendered_push(s: Seq<Seq<char>>, x: Seq<char>)
    ensures
        s.len() == 0 ==> rendered(s.push(x)) == x,
        s.len() > 0 ==> rendered(s.push(x)) == x + seq!['.'] + rendered(s),
{
    let t = s.push(x);
    assert(t.last() == x);
    assert(t.drop_last() =~= s);
}

/// The name of a field within a struct or enum, such as `field1` or
/// `field1.inner_field.inner_inner_field`: the accumulated path from the
/// root of the compared values down to one reported difference.
pub struct FieldIdentifier {
    storage: LabelStack,
}

impl View for FieldIdentifier {
    type V = Seq<Seq<char>>;

    closed spec fn view(&self) -> Seq<Seq<char>> {
        small_vec_labels(self.storage)
    }
}

impl FieldIdentifier {
    /// An empty path.
    pub fn new() -> (r: Self)
        ensures
            r@ == Seq::<Seq<char>>::empty(),
    {
        FieldIdentifier { storage: labels_new() }
    }

    /// Append one label; the enclosing composition frame pushes exactly
    /// its own label as a result bubbles up through it.
    pub fn push(&mut self, string: &'static str)
        ensures
            final(self)@ == old(self)@.push(string@),
    {
        labels_push(&mut self.storage, string);
    }

    /// Render the path: stored labels in reverse insertion order, joined
    /// with `.`, so the outermost frame's label comes first.
    pub fn to_string(&self) -> (r: String)
        ensures
            r@ == rendered(self@),
    {
        let mut result = String::new();
        let len = labels_len(&self.storage);
        let mut i: usize = len;
        while i > 0
            invariant
                i <= len,
                len == self@.len(),
                result@ == rendered(self@.subrange(i as int, len as int)),
        decreases i,
        {
            i = i - 1;
            if i + 1 < len {
                result.append(".");
            }
            let label = labels_get(&self.storage, i);
            result.append(label);
            proof {
                reveal_strlit(".");
                assert("."@ =~= seq!['.']);
                let rest = self@.subrange(i + 1, len as int);
                assert(self@.subrange(i as int, len as int) =~= seq![self@[i as int]] + rest);
                lemma_rendered_prepend(self@[i as int], rest);
            }
        }
        proof {
            assert(self@.subrange(0, self@.len() as int) =~= self@);
        }
        result
    }
}

} // verus!
