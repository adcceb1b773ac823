//! Strings as the sequences of characters that contracts speak of.

use vstd::prelude::*;

verus! {

/// The texts of `items`, one for one.
pub open spec fn views_of(items: Seq<String>) -> Seq<Seq<char>> {
    Seq::new(items.len(), |i: int| items[i]@)
}

/// The texts of an optional list.
pub open spec fn optional_views_of(items: Option<Vec<String>>) -> Option<Seq<Seq<char>>> {
    match items {
        Some(v) => Some(views_of(v@)),
        None => None,
    }
}

} // verus!
