//! Plain values exchanged with the query layer.

use vstd::prelude::*;

verus! {

/// The stable internal identifier of a committed media item.
#[derive(Clone, Copy, Debug, PartialEq, Eq, Structural, Hash)]
pub struct IdObject {
    pub id: i32,
}

} // verus!
