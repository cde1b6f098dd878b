//! How a run of items is worked through in parts: where it is cut, and in which order the
//! results of the parts are put together. The parallel folds of this library are described
//! by such plans.

use vstd::prelude::*;

verus! {

/// A way to work through a run of items in parts.
pub enum Plan<T> {
    /// One part, taken in from its first item to its last.
    Part(Seq<T>),
    /// Two plans for adjacent runs of items. Their results are merged, the later run's
    /// result first where `swapped` is set.
    Join { first: Box<Plan<T>>, second: Box<Plan<T>>, swapped: bool },
}

impl<T> Plan<T> {
    /// The items that the plan works through, in their order.
    pub open spec fn items(self) -> Seq<T>
        decreases self,
    {
        match self {
            Plan::Part(items) => items,
            Plan::Join { first, second, .. } => first.items() + second.items(),
        }
    }

    /// The plan merges the result of an earlier run before that of a later one, throughout.
    pub open spec fn in_order(self) -> bool
        decreases self,
    {
        match self {
            Plan::Part(_) => true,
            Plan::Join { first, second, swapped } => !swapped && first.in_order()
                && second.in_order(),
        }
    }
}

} // verus!
