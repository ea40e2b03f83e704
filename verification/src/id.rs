//! Widget identifiers.

use vstd::prelude::*;

verus! {

/// A handle on one slot of the toolkit's widget table.
///
/// The toolkit numbers its slots consecutively from zero; `index` is that
/// number. Two identifiers are the same widget exactly when their indices
/// are equal.
#[derive(Clone, Copy, PartialEq, Eq, Structural, Debug)]
pub struct WidgetId {
    pub index: usize,
}

impl WidgetId {
    /// The identifier of slot `index`.
    pub fn new(index: usize) -> (id: WidgetId)
        ensures
            id.index == index,
    {
        WidgetId { index }
    }

    /// The slot that this identifier names.
    pub fn index(&self) -> (index: usize)
        ensures
            index == self.index,
    {
        self.index
    }
}

/// The `count` identifiers of the consecutive slots that start at `first`.
pub open spec fn consecutive(first: nat, count: nat) -> Seq<WidgetId> {
    Seq::new(count, |j: int| WidgetId { index: (first + j) as usize })
}

/// Slots that were reserved one after the other name different widgets.
pub proof fn lemma_consecutive_distinct(first: nat, count: nat)
    requires
        first + count <= usize::MAX + 1,
    ensures
        consecutive(first, count).no_duplicates(),
{
}

} // verus!
