//! Shell text for the virtualization entries: KVM, Cockpit, and Xen.

use vstd::prelude::*;

verus! {

pub open spec fn kvm_base_text() -> Seq<char> {
    "sudo dnf install -y qemu-kvm libvirt-daemon-config-network libvirt-daemon-kvm"@
}

pub fn kvm_base() -> (r: &'static str)
    ensures
        r@ == kvm_base_text(),
{
    "sudo dnf install -y qemu-kvm libvirt-daemon-config-network libvirt-daemon-kvm"
}

pub open spec fn kvm_full_text() -> Seq<char> {
    "sudo dnf install -y @virtualization virt-top libguestfs-tools"@
}

pub fn kvm_full() -> (r: &'static str)
    ensures
        r@ == kvm_full_text(),
{
    "sudo dnf install -y @virtualization virt-top libguestfs-tools"
}

pub open spec fn kvm_virt_manager_text() -> Seq<char> {
    "sudo dnf install -y virt-manager"@
}

pub fn kvm_virt_manager() -> (r: &'static str)
    ensures
        r@ == kvm_virt_manager_text(),
{
    "sudo dnf install -y virt-manager"
}

pub open spec fn kvm_tigervnc_text() -> Seq<char> {
    "sudo dnf install -y tigervnc-server"@
}

pub fn kvm_tigervnc() -> (r: &'static str)
    ensures
        r@ == kvm_tigervnc_text(),
{
    "sudo dnf install -y tigervnc-server"
}

pub open spec fn kvm_remmina_text() -> Seq<char> {
    "sudo dnf install -y remmina"@
}

pub fn kvm_remmina() -> (r: &'static str)
    ensures
        r@ == kvm_remmina_text(),
{
    "sudo dnf install -y remmina"
}

pub open spec fn kvm_libvirt_net_create_text() -> Seq<char> {
    "echo 'Placeholder for libvirt network creation script'"@
}

pub fn kvm_libvirt_net_create() -> (r: &'static str)
    ensures
        r@ == kvm_libvirt_net_create_text(),
{
    "echo 'Placeholder for libvirt network creation script'"
}

pub open spec fn cockpit_base_text() -> Seq<char> {
    "sudo dnf install -y cockpit\nsudo systemctl enable --now cockpit.socket"@
}

pub fn cockpit_base() -> (r: &'static str)
    ensures
        r@ == cockpit_base_text(),
{
    "sudo dnf install -y cockpit\nsudo systemctl enable --now cockpit.socket"
}

pub open spec fn cockpit_full_text() -> Seq<char> {
    "sudo dnf install -y cockpit cockpit-machines cockpit-podman cockpit-storaged\nsudo systemctl enable --now cockpit.socket"@
}

pub fn cockpit_full() -> (r: &'static str)
    ensures
        r@ == cockpit_full_text(),
{
    "sudo dnf install -y cockpit cockpit-machines cockpit-podman cockpit-storaged\nsudo systemctl enable --now cockpit.socket"
}

pub open spec fn cockpit_storage_text() -> Seq<char> {
    "sudo dnf install -y cockpit-storaged"@
}

pub fn cockpit_storage() -> (r: &'static str)
    ensures
        r@ == cockpit_storage_text(),
{
    "sudo dnf install -y cockpit-storaged"
}

pub open spec fn cockpit_podman_text() -> Seq<char> {
    "sudo dnf install -y cockpit-podman"@
}

pub fn cockpit_podman() -> (r: &'static str)
    ensures
        r@ == cockpit_podman_text(),
{
    "sudo dnf install -y cockpit-podman"
}

pub open spec fn cockpit_files_text() -> Seq<char> {
    "echo 'cockpit-files is part of the core cockpit package'"@
}

pub fn cockpit_files() -> (r: &'static str)
    ensures
        r@ == cockpit_files_text(),
{
    "echo 'cockpit-files is part of the core cockpit package'"
}

pub open spec fn cockpit_image_builder_text() -> Seq<char> {
    "sudo dnf install -y cockpit-composer"@
}

pub fn cockpit_image_builder() -> (r: &'static str)
    ensures
        r@ == cockpit_image_builder_text(),
{
    "sudo dnf install -y cockpit-composer"
}

pub open spec fn cockpit_machines_text() -> Seq<char> {
    "sudo dnf install -y cockpit-machines"@
}

pub fn cockpit_machines() -> (r: &'static str)
    ensures
        r@ == cockpit_machines_text(),
{
    "sudo dnf install -y cockpit-machines"
}

pub open spec fn install_xen_text() -> Seq<char> {
    "sudo dnf install -y xen\nsudo systemctl enable xen-qemu-dom0-disk-backend.service"@
}

pub fn install_xen() -> (r: &'static str)
    ensures
        r@ == install_xen_text(),
{
    "sudo dnf install -y xen\nsudo systemctl enable xen-qemu-dom0-disk-backend.service"
}

} // verus!
