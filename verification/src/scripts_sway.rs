//! Shell text for the Sway window manager entries.

use vstd::prelude::*;

verus! {

pub open spec fn compile_from_source_text() -> Seq<char> {
    "echo 'Placeholder for Sway v1.10 compilation script'"@
}

pub fn compile_from_source() -> (r: &'static str)
    ensures
        r@ == compile_from_source_text(),
{
    "echo 'Placeholder for Sway v1.10 compilation script'"
}

pub open spec fn install_wofi_text() -> Seq<char> {
    "sudo dnf install -y wofi"@
}

pub fn install_wofi() -> (r: &'static str)
    ensures
        r@ == install_wofi_text(),
{
    "sudo dnf install -y wofi"
}

pub open spec fn install_swaybg_text() -> Seq<char> {
    "sudo dnf install -y swaybg"@
}

pub fn install_swaybg() -> (r: &'static str)
    ensures
        r@ == install_swaybg_text(),
{
    "sudo dnf install -y swaybg"
}

pub open spec fn install_waybar_text() -> Seq<char> {
    "sudo dnf install -y waybar"@
}

pub fn install_waybar() -> (r: &'static str)
    ensures
        r@ == install_waybar_text(),
{
    "sudo dnf install -y waybar"
}

} // verus!
