//! Shell text for the desktop application entries.

use vstd::prelude::*;

verus! {

pub open spec fn konsole_text() -> Seq<char> {
    "sudo dnf install -y konsole"@
}

pub fn konsole() -> (r: &'static str)
    ensures
        r@ == konsole_text(),
{
    "sudo dnf install -y konsole"
}

pub open spec fn filezilla_text() -> Seq<char> {
    "sudo dnf install -y filezilla"@
}

pub fn filezilla() -> (r: &'static str)
    ensures
        r@ == filezilla_text(),
{
    "sudo dnf install -y filezilla"
}

pub open spec fn remmina_text() -> Seq<char> {
    "sudo dnf install -y remmina"@
}

pub fn remmina() -> (r: &'static str)
    ensures
        r@ == remmina_text(),
{
    "sudo dnf install -y remmina"
}

pub open spec fn firefox_text() -> Seq<char> {
    "sudo dnf install -y firefox"@
}

pub fn firefox() -> (r: &'static str)
    ensures
        r@ == firefox_text(),
{
    "sudo dnf install -y firefox"
}

pub open spec fn chromium_text() -> Seq<char> {
    "sudo dnf install -y chromium"@
}

pub fn chromium() -> (r: &'static str)
    ensures
        r@ == chromium_text(),
{
    "sudo dnf install -y chromium"
}

pub open spec fn placeholder_text() -> Seq<char> {
    "echo 'This app is not in the default repos or requires special installation.'"@
}

pub fn placeholder() -> (r: &'static str)
    ensures
        r@ == placeholder_text(),
{
    "echo 'This app is not in the default repos or requires special installation.'"
}

} // verus!
