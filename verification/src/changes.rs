//! Sets of pending edits.

use vstd::prelude::*;

use crate::edit::Edit;

verus! {

/// A set of pending edits to source files, produced by selection operations.
///
/// `Changes` is pure data: nothing is written until the changes are applied
/// and committed.
#[derive(Debug)]
pub struct Changes {
    pub edits: Vec<Edit>,
}

/// The edits of several change sets, in order.
pub open spec fn all_edits(parts: Seq<Changes>) -> Seq<Edit>
    decreases parts.len(),
{
    if parts.len() == 0 {
        Seq::empty()
    } else {
        all_edits(parts.drop_last()) + parts.last().edits@
    }
}

impl Changes {
    /// An empty change set.
    pub fn none() -> (c: Changes)
        ensures
            c.edits@.len() == 0,
    {
        Changes { edits: Vec::new() }
    }

    /// A change set holding exactly `edits`.
    pub fn from_edits(edits: Vec<Edit>) -> (c: Changes)
        ensures
            c.edits == edits,
    {
        Changes { edits }
    }

    /// Merges several change sets into one, keeping every edit in order.
    pub fn combine(parts: Vec<Changes>) -> (c: Changes)
        ensures
            c.edits@ == all_edits(parts@),
    {
        let mut parts = parts;
        let ghost all = parts@;
        let mut tail: Vec<Edit> = Vec::new();
        // Take the parts from the back, prepending each one's edits.
        while parts.len() > 0
            invariant
                all_edits(all) == all_edits(parts@) + tail@,
            decreases parts.len(),
        {
            let ghost before = parts@;
            let mut last = parts.pop().unwrap();
            assert(before.drop_last() == parts@);
            assert(before.last() == last);
            let ghost le = last.edits@;
            assert(all_edits(before) == all_edits(parts@) + le);
            let mut edits = Vec::new();
            edits.append(&mut last.edits);
            edits.append(&mut tail);
            tail = edits;
        }
        assert(all_edits(parts@) == Seq::<Edit>::empty());
        assert(tail@ == Seq::<Edit>::empty() + tail@);
        Changes { edits: tail }
    }

    /// `self` followed by `other`, as one change set.
    pub fn and(self, other: Changes) -> (c: Changes)
        ensures
            c.edits@ == self.edits@ + other.edits@,
    {
        let mut parts: Vec<Changes> = Vec::new();
        let ghost a = self.edits@;
        let ghost b = other.edits@;
        parts.push(self);
        parts.push(other);
        let c = Self::combine(parts);
        assert(all_edits(parts@) == all_edits(parts@.drop_last()) + b);
        assert(parts@.drop_last().drop_last() == Seq::<Changes>::empty());
        assert(parts@.drop_last().last().edits@ == a);
        assert(all_edits(Seq::<Changes>::empty()) == Seq::<Edit>::empty());
        assert(all_edits(parts@.drop_last()) == Seq::<Edit>::empty() + a);
        c
    }

    /// Returns `true` if there are no pending edits.
    pub fn is_empty(&self) -> (b: bool)
        ensures
            b == (self.edits@.len() == 0),
    {
        self.edits.len() == 0
    }

    /// The number of individual edits in this change set.
    pub fn edit_count(&self) -> (n: usize)
        ensures
            n == self.edits@.len(),
    {
        self.edits.len()
    }
}

} // verus!
