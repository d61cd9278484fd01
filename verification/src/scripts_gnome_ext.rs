//! Shell text for the GNOME Shell extension entries, which all point at
//! the same manual-installation note.

use vstd::prelude::*;

verus! {

pub open spec fn placeholder_text() -> Seq<char> {
    "echo 'GNOME Shell extension installation must be done manually or via a dedicated script.'"@
}

pub fn placeholder() -> (r: &'static str)
    ensures
        r@ == placeholder_text(),
{
    "echo 'GNOME Shell extension installation must be done manually or via a dedicated script.'"
}

} // verus!
