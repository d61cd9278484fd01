//! Shell text for the repository-enabling entries (Rocky Linux specific).

use vstd::prelude::*;

verus! {

pub open spec fn add_rt_text() -> Seq<char> {
    "sudo dnf config-manager --set-enabled rt"@
}

pub fn add_rt() -> (r: &'static str)
    ensures
        r@ == add_rt_text(),
{
    "sudo dnf config-manager --set-enabled rt"
}

pub open spec fn add_plus_text() -> Seq<char> {
    "sudo dnf config-manager --set-enabled plus"@
}

pub fn add_plus() -> (r: &'static str)
    ensures
        r@ == add_plus_text(),
{
    "sudo dnf config-manager --set-enabled plus"
}

pub open spec fn add_nfv_text() -> Seq<char> {
    "sudo dnf config-manager --set-enabled nfv"@
}

pub fn add_nfv() -> (r: &'static str)
    ensures
        r@ == add_nfv_text(),
{
    "sudo dnf config-manager --set-enabled nfv"
}

pub open spec fn add_ha_text() -> Seq<char> {
    "sudo dnf config-manager --set-enabled ha"@
}

pub fn add_ha() -> (r: &'static str)
    ensures
        r@ == add_ha_text(),
{
    "sudo dnf config-manager --set-enabled ha"
}

pub open spec fn add_extras_text() -> Seq<char> {
    "sudo dnf config-manager --set-enabled extras"@
}

pub fn add_extras() -> (r: &'static str)
    ensures
        r@ == add_extras_text(),
{
    "sudo dnf config-manager --set-enabled extras"
}

pub open spec fn add_devel_text() -> Seq<char> {
    "sudo dnf config-manager --set-enabled devel"@
}

pub fn add_devel() -> (r: &'static str)
    ensures
        r@ == add_devel_text(),
{
    "sudo dnf config-manager --set-enabled devel"
}

pub open spec fn add_crb_text() -> Seq<char> {
    "sudo dnf config-manager --set-enabled crb"@
}

pub fn add_crb() -> (r: &'static str)
    ensures
        r@ == add_crb_text(),
{
    "sudo dnf config-manager --set-enabled crb"
}

pub open spec fn add_baseos_text() -> Seq<char> {
    "sudo dnf config-manager --set-enabled baseos"@
}

pub fn add_baseos() -> (r: &'static str)
    ensures
        r@ == add_baseos_text(),
{
    "sudo dnf config-manager --set-enabled baseos"
}

pub open spec fn add_appstream_text() -> Seq<char> {
    "sudo dnf config-manager --set-enabled appstream"@
}

pub fn add_appstream() -> (r: &'static str)
    ensures
        r@ == add_appstream_text(),
{
    "sudo dnf config-manager --set-enabled appstream"
}

pub open spec fn add_epel_text() -> Seq<char> {
    "sudo dnf config-manager --set-enabled crb\nsudo dnf install -y 'https://dl.fedoraproject.org/pub/epel/epel-release-latest-9.noarch.rpm'"@
}

pub fn add_epel() -> (r: &'static str)
    ensures
        r@ == add_epel_text(),
{
    "sudo dnf config-manager --set-enabled crb\nsudo dnf install -y 'https://dl.fedoraproject.org/pub/epel/epel-release-latest-9.noarch.rpm'"
}

pub open spec fn add_flathub_text() -> Seq<char> {
    "sudo dnf install -y flatpak\nsudo flatpak remote-add --if-not-exists flathub https://dl.flathub.org/repo/flathub.flatpakrepo"@
}

pub fn add_flathub() -> (r: &'static str)
    ensures
        r@ == add_flathub_text(),
{
    "sudo dnf install -y flatpak\nsudo flatpak remote-add --if-not-exists flathub https://dl.flathub.org/repo/flathub.flatpakrepo"
}

} // verus!
