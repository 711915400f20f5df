//! The mathematical value of a list: the values of its items, in order.

use vstd::prelude::*;

verus! {

/// The values of a sequence of items, in order.
pub open spec fn seq_views<T: View>(items: Seq<T>) -> Seq<T::V> {
    Seq::new(items.len(), |i: int| items[i]@)
}

} // verus!
