//! The lobby's session, which lists the rooms.
use vstd::prelude::*;

verus! {

/// The session of the lobby page.
pub struct List;

impl List {
    /// The tag under which the lobby's messages travel.
    pub fn tag() -> (r: &'static str)
        ensures
            r@ == "list"@,
    {
        "list"
    }
}

} // verus!
