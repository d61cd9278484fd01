//! Shell text for the GNOME desktop environment entries.

use vstd::prelude::*;

verus! {

pub open spec fn base_install_text() -> Seq<char> {
    "sudo dnf install -y gdm gnome-shell gnome-terminal"@
}

pub fn base_install() -> (r: &'static str)
    ensures
        r@ == base_install_text(),
{
    "sudo dnf install -y gdm gnome-shell gnome-terminal"
}

pub open spec fn full_install_text() -> Seq<char> {
    "sudo dnf groupinstall -y 'Workstation'"@
}

pub fn full_install() -> (r: &'static str)
    ensures
        r@ == full_install_text(),
{
    "sudo dnf groupinstall -y 'Workstation'"
}

} // verus!
