//! What the user has decided about an access.

use vstd::prelude::*;

verus! {

/// A decision about an access. `Ask` stands for none yet.
#[derive(Clone, Copy, Debug, PartialEq, Eq, Structural)]
pub enum Permission {
    Ask,
    Yes,
    No,
}

impl Default for Permission {
    fn default() -> (p: Self)
        ensures
            p == Permission::Ask,
    {
        Permission::Ask
    }
}

} // verus!
