//! Shell text for the NetworkManager VPN plugin entries.

use vstd::prelude::*;

verus! {

pub open spec fn install_vpn_ovpn_text() -> Seq<char> {
    "sudo dnf install -y NetworkManager-openvpn-gnome"@
}

pub fn install_vpn_ovpn() -> (r: &'static str)
    ensures
        r@ == install_vpn_ovpn_text(),
{
    "sudo dnf install -y NetworkManager-openvpn-gnome"
}

pub open spec fn install_vpn_l2tp_text() -> Seq<char> {
    "sudo dnf install -y NetworkManager-l2tp-gnome"@
}

pub fn install_vpn_l2tp() -> (r: &'static str)
    ensures
        r@ == install_vpn_l2tp_text(),
{
    "sudo dnf install -y NetworkManager-l2tp-gnome"
}

pub open spec fn install_vpn_sswan_text() -> Seq<char> {
    "sudo dnf install -y NetworkManager-strongswan-gnome"@
}

pub fn install_vpn_sswan() -> (r: &'static str)
    ensures
        r@ == install_vpn_sswan_text(),
{
    "sudo dnf install -y NetworkManager-strongswan-gnome"
}

pub open spec fn install_vpn_lswan_text() -> Seq<char> {
    "sudo dnf install -y NetworkManager-libreswan-gnome"@
}

pub fn install_vpn_lswan() -> (r: &'static str)
    ensures
        r@ == install_vpn_lswan_text(),
{
    "sudo dnf install -y NetworkManager-libreswan-gnome"
}

pub open spec fn install_vpn_pptp_text() -> Seq<char> {
    "sudo dnf install -y NetworkManager-pptp-gnome"@
}

pub fn install_vpn_pptp() -> (r: &'static str)
    ensures
        r@ == install_vpn_pptp_text(),
{
    "sudo dnf install -y NetworkManager-pptp-gnome"
}

pub open spec fn install_vpn_oconn_text() -> Seq<char> {
    "sudo dnf install -y NetworkManager-openconnect-gnome"@
}

pub fn install_vpn_oconn() -> (r: &'static str)
    ensures
        r@ == install_vpn_oconn_text(),
{
    "sudo dnf install -y NetworkManager-openconnect-gnome"
}

} // verus!
