//! The association between a user and a media item the user has consumed.

use vstd::prelude::*;

verus! {

/// One association. A pair of ids occurs at most once in the table. Its
/// mathematical value is the pair: user, then media item.
#[derive(Clone, Copy, Debug, PartialEq, Eq, Structural)]
pub struct Model {
    pub user_id: i32,
    pub metadata_id: i32,
}

impl View for Model {
    type V = (int, int);

    open spec fn view(&self) -> (int, int) {
        (self.user_id as int, self.metadata_id as int)
    }
}

impl DeepView for Model {
    type V = (int, int);

    open spec fn deep_view(&self) -> (int, int) {
        self@
    }
}

} // verus!
