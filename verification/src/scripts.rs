//! The catalog: the per-distribution script set and the one-time build of
//! the menu tree, sorted and fully unselected.

use vstd::prelude::*;
use crate::menu::{all_unselected, node_name, nodes_wf, MenuNode, MenuTree, OsDistribution,
    ScriptCategory};
use crate::sorting::{names_of, node_sort_rel, sort_children, sort_menu_recursively, tree_sorted};
use crate::{scripts_gnome, scripts_gnome_apps, scripts_gnome_ext, scripts_net, scripts_repos,
    scripts_sway, scripts_virt};

verus! {

/// Holds all scripts for a specific OS: one shell-text entry per menu item.
pub struct ScriptSet {
    // KVM
    pub kvm_base: &'static str,
    pub kvm_full: &'static str,
    pub kvm_virt_manager: &'static str,
    pub kvm_tigervnc: &'static str,
    pub kvm_remmina: &'static str,
    pub kvm_libvirt_net_create: &'static str,
    // Cockpit
    pub cockpit_base: &'static str,
    pub cockpit_full: &'static str,
    pub cockpit_storage: &'static str,
    pub cockpit_podman: &'static str,
    pub cockpit_files: &'static str,
    pub cockpit_image_builder: &'static str,
    pub cockpit_machines: &'static str,
    // XEN
    pub install_xen: &'static str,
    // Gnome
    pub gnome_base: &'static str,
    pub gnome_full: &'static str,
    // Gnome Extensions
    pub gnome_ext_forge: &'static str,
    pub gnome_ext_tile: &'static str,
    pub gnome_ext_paperwm: &'static str,
    pub gnome_ext_hspacing: &'static str,
    pub gnome_ext_vitals: &'static str,
    pub gnome_ext_just_perfection: &'static str,
    pub gnome_ext_search_light: &'static str,
    // Gnome Apps
    pub app_ptyxis: &'static str,
    pub app_konsole: &'static str,
    pub app_alacritty: &'static str,
    pub app_ghostty: &'static str,
    pub app_filezilla: &'static str,
    pub app_remmina: &'static str,
    pub app_firefox: &'static str,
    pub app_chromium: &'static str,
    // Sway
    pub sway_compile_1_10: &'static str,
    pub sway_wofi: &'static str,
    pub sway_swaybg: &'static str,
    pub sway_waybar: &'static str,
    // Repositories
    pub repo_rt: &'static str,
    pub repo_plus: &'static str,
    pub repo_nfv: &'static str,
    pub repo_ha: &'static str,
    pub repo_extras: &'static str,
    pub repo_devel: &'static str,
    pub repo_crb: &'static str,
    pub repo_baseos: &'static str,
    pub repo_appstream: &'static str,
    pub repo_epel: &'static str,
    pub repo_flathub: &'static str,
    // Networking
    pub net_vpn_ovpn: &'static str,
    pub net_vpn_l2tp: &'static str,
    pub net_vpn_sswan: &'static str,
    pub net_vpn_lswan: &'static str,
    pub net_vpn_pptp: &'static str,
    pub net_vpn_oconn: &'static str,
}

/// The single source of truth for OS-specific scripts. Every supported
/// distribution currently shares one script set.
pub fn get_script_set(_os: OsDistribution) -> (r: ScriptSet)
    ensures
        r.kvm_base@ == scripts_virt::kvm_base_text(),
        r.kvm_full@ == scripts_virt::kvm_full_text(),
        r.kvm_virt_manager@ == scripts_virt::kvm_virt_manager_text(),
        r.kvm_tigervnc@ == scripts_virt::kvm_tigervnc_text(),
        r.kvm_remmina@ == scripts_virt::kvm_remmina_text(),
        r.kvm_libvirt_net_create@ == scripts_virt::kvm_libvirt_net_create_text(),
        r.cockpit_base@ == scripts_virt::cockpit_base_text(),
        r.cockpit_full@ == scripts_virt::cockpit_full_text(),
        r.cockpit_storage@ == scripts_virt::cockpit_storage_text(),
        r.cockpit_podman@ == scripts_virt::cockpit_podman_text(),
        r.cockpit_files@ == scripts_virt::cockpit_files_text(),
        r.cockpit_image_builder@ == scripts_virt::cockpit_image_builder_text(),
        r.cockpit_machines@ == scripts_virt::cockpit_machines_text(),
        r.install_xen@ == scripts_virt::install_xen_text(),
        r.gnome_base@ == scripts_gnome::base_install_text(),
        r.gnome_full@ == scripts_gnome::full_install_text(),
        r.gnome_ext_forge@ == scripts_gnome_ext::placeholder_text(),
        r.gnome_ext_tile@ == scripts_gnome_ext::placeholder_text(),
        r.gnome_ext_paperwm@ == scripts_gnome_ext::placeholder_text(),
        r.gnome_ext_hspacing@ == scripts_gnome_ext::placeholder_text(),
        r.gnome_ext_vitals@ == scripts_gnome_ext::placeholder_text(),
        r.gnome_ext_just_perfection@ == scripts_gnome_ext::placeholder_text(),
        r.gnome_ext_search_light@ == scripts_gnome_ext::placeholder_text(),
        r.app_ptyxis@ == scripts_gnome_apps::placeholder_text(),
        r.app_konsole@ == scripts_gnome_apps::konsole_text(),
        r.app_alacritty@ == scripts_gnome_apps::placeholder_text(),
        r.app_ghostty@ == scripts_gnome_apps::placeholder_text(),
        r.app_filezilla@ == scripts_gnome_apps::filezilla_text(),
        r.app_remmina@ == scripts_gnome_apps::remmina_text(),
        r.app_firefox@ == scripts_gnome_apps::firefox_text(),
        r.app_chromium@ == scripts_gnome_apps::chromium_text(),
        r.sway_compile_1_10@ == scripts_sway::compile_from_source_text(),
        r.sway_wofi@ == scripts_sway::install_wofi_text(),
        r.sway_swaybg@ == scripts_sway::install_swaybg_text(),
        r.sway_waybar@ == scripts_sway::install_waybar_text(),
        r.repo_rt@ == scripts_repos::add_rt_text(),
        r.repo_plus@ == scripts_repos::add_plus_text(),
        r.repo_nfv@ == scripts_repos::add_nfv_text(),
        r.repo_ha@ == scripts_repos::add_ha_text(),
        r.repo_extras@ == scripts_repos::add_extras_text(),
        r.repo_devel@ == scripts_repos::add_devel_text(),
        r.repo_crb@ == scripts_repos::add_crb_text(),
        r.repo_baseos@ == scripts_repos::add_baseos_text(),
        r.repo_appstream@ == scripts_repos::add_appstream_text(),
        r.repo_epel@ == scripts_repos::add_epel_text(),
        r.repo_flathub@ == scripts_repos::add_flathub_text(),
        r.net_vpn_ovpn@ == scripts_net::install_vpn_ovpn_text(),
        r.net_vpn_l2tp@ == scripts_net::install_vpn_l2tp_text(),
        r.net_vpn_sswan@ == scripts_net::install_vpn_sswan_text(),
        r.net_vpn_lswan@ == scripts_net::install_vpn_lswan_text(),
        r.net_vpn_pptp@ == scripts_net::install_vpn_pptp_text(),
        r.net_vpn_oconn@ == scripts_net::install_vpn_oconn_text(),
{
    ScriptSet {
        kvm_base: scripts_virt::kvm_base(),
        kvm_full: scripts_virt::kvm_full(),
        kvm_virt_manager: scripts_virt::kvm_virt_manager(),
        kvm_tigervnc: scripts_virt::kvm_tigervnc(),
        kvm_remmina: scripts_virt::kvm_remmina(),
        kvm_libvirt_net_create: scripts_virt::kvm_libvirt_net_create(),
        cockpit_base: scripts_virt::cockpit_base(),
        cockpit_full: scripts_virt::cockpit_full(),
        cockpit_storage: scripts_virt::cockpit_storage(),
        cockpit_podman: scripts_virt::cockpit_podman(),
        cockpit_files: scripts_virt::cockpit_files(),
        cockpit_image_builder: scripts_virt::cockpit_image_builder(),
        cockpit_machines: scripts_virt::cockpit_machines(),
        install_xen: scripts_virt::install_xen(),
        gnome_base: scripts_gnome::base_install(),
        gnome_full: scripts_gnome::full_install(),
        gnome_ext_forge: scripts_gnome_ext::placeholder(),
        gnome_ext_tile: scripts_gnome_ext::placeholder(),
        gnome_ext_paperwm: scripts_gnome_ext::placeholder(),
        gnome_ext_hspacing: scripts_gnome_ext::placeholder(),
        gnome_ext_vitals: scripts_gnome_ext::placeholder(),
        gnome_ext_just_perfection: scripts_gnome_ext::placeholder(),
        gnome_ext_search_light: scripts_gnome_ext::placeholder(),
        app_ptyxis: scripts_gnome_apps::placeholder(),
        app_konsole: scripts_gnome_apps::konsole(),
        app_alacritty: scripts_gnome_apps::placeholder(),
        app_ghostty: scripts_gnome_apps::placeholder(),
        app_filezilla: scripts_gnome_apps::filezilla(),
        app_remmina: scripts_gnome_apps::remmina(),
        app_firefox: scripts_gnome_apps::firefox(),
        app_chromium: scripts_gnome_apps::chromium(),
        sway_compile_1_10: scripts_sway::compile_from_source(),
        sway_wofi: scripts_sway::install_wofi(),
        sway_swaybg: scripts_sway::install_swaybg(),
        sway_waybar: scripts_sway::install_waybar(),
        repo_rt: scripts_repos::add_rt(),
        repo_plus: scripts_repos::add_plus(),
        repo_nfv: scripts_repos::add_nfv(),
        repo_ha: scripts_repos::add_ha(),
        repo_extras: scripts_repos::add_extras(),
        repo_devel: scripts_repos::add_devel(),
        repo_crb: scripts_repos::add_crb(),
        repo_baseos: scripts_repos::add_baseos(),
        repo_appstream: scripts_repos::add_appstream(),
        repo_epel: scripts_repos::add_epel(),
        repo_flathub: scripts_repos::add_flathub(),
        net_vpn_ovpn: scripts_net::install_vpn_ovpn(),
        net_vpn_l2tp: scripts_net::install_vpn_l2tp(),
        net_vpn_sswan: scripts_net::install_vpn_sswan(),
        net_vpn_lswan: scripts_net::install_vpn_lswan(),
        net_vpn_pptp: scripts_net::install_vpn_pptp(),
        net_vpn_oconn: scripts_net::install_vpn_oconn(),
    }
}

/// Node `i` of the arena is an unselected item with this name, shell
/// text, and category.
pub open spec fn item_at(
    nodes: Seq<MenuNode>,
    i: int,
    name: Seq<char>,
    action: Seq<char>,
    cat: ScriptCategory,
) -> bool {
    nodes[i] matches MenuNode::Item { name: n, action: a, selected, category } && n@ == name && a@
        == action && !selected && category == cat
}

/// Node `i` of the arena is a container with this name whose children are
/// `children` (given in catalog order) sorted by display name.
pub open spec fn menu_at(
    nodes: Seq<MenuNode>,
    i: int,
    name: Seq<char>,
    children: Seq<usize>,
) -> bool {
    nodes[i] matches MenuNode::Menu { name: n, children: c } && n@ == name && c@ == sort_children(
        names_of(nodes),
        children,
    )
}

/// The virtualization branch of the catalog: KVM, Xen, and Cockpit.
pub open spec fn catalog_virt(nodes: Seq<MenuNode>) -> bool {
    &&& item_at(nodes, 0, "Base Installation"@, scripts_virt::kvm_base_text(), ScriptCategory::General)
    &&& item_at(nodes, 1, "Full Installation"@, scripts_virt::kvm_full_text(), ScriptCategory::General)
    &&& item_at(nodes, 2, "virt-manager"@, scripts_virt::kvm_virt_manager_text(), ScriptCategory::General)
    &&& item_at(nodes, 3, "tigervnc"@, scripts_virt::kvm_tigervnc_text(), ScriptCategory::General)
    &&& item_at(nodes, 4, "remmina"@, scripts_virt::kvm_remmina_text(), ScriptCategory::General)
    &&& menu_at(nodes, 5, "Modules"@, seq![2, 3, 4])
    &&& item_at(nodes, 6, "libvirt network create"@, scripts_virt::kvm_libvirt_net_create_text(), ScriptCategory::General)
    &&& menu_at(nodes, 7, "Setup Scripts"@, seq![6])
    &&& menu_at(nodes, 8, "KVM Core & Tools"@, seq![0, 1, 5, 7])
    &&& item_at(nodes, 9, "Base Installation"@, scripts_virt::install_xen_text(), ScriptCategory::General)
    &&& menu_at(nodes, 10, "XEN Core & Tools"@, seq![9])
    &&& menu_at(nodes, 11, "XEN Management"@, Seq::empty())
    &&& menu_at(nodes, 12, "Virtualization Engines"@, seq![8, 10, 11])
    &&& item_at(nodes, 13, "Base Installation"@, scripts_virt::cockpit_base_text(), ScriptCategory::General)
    &&& item_at(nodes, 14, "Full Installation"@, scripts_virt::cockpit_full_text(), ScriptCategory::General)
    &&& item_at(nodes, 15, "storage"@, scripts_virt::cockpit_storage_text(), ScriptCategory::General)
    &&& item_at(nodes, 16, "podman"@, scripts_virt::cockpit_podman_text(), ScriptCategory::General)
    &&& item_at(nodes, 17, "files"@, scripts_virt::cockpit_files_text(), ScriptCategory::General)
    &&& item_at(nodes, 18, "image builder"@, scripts_virt::cockpit_image_builder_text(), ScriptCategory::General)
    &&& item_at(nodes, 19, "machines"@, scripts_virt::cockpit_machines_text(), ScriptCategory::General)
    &&& menu_at(nodes, 20, "Modules"@, seq![15, 16, 17, 18, 19])
    &&& menu_at(nodes, 21, "Cockpit"@, seq![13, 14, 20])
    &&& menu_at(nodes, 22, "KVM Management"@, seq![21])
    &&& menu_at(nodes, 23, "Virtualization"@, seq![12, 22])
}

/// The graphical-environments branch of the catalog: GNOME and Sway.
pub open spec fn catalog_graphical(nodes: Seq<MenuNode>) -> bool {
    &&& item_at(nodes, 24, "Base Installation"@, scripts_gnome::base_install_text(), ScriptCategory::General)
    &&& item_at(nodes, 25, "Full Installation"@, scripts_gnome::full_install_text(), ScriptCategory::General)
    &&& menu_at(nodes, 26, "Environment Installation"@, seq![24, 25])
    &&& item_at(nodes, 27, "Forge"@, scripts_gnome_ext::placeholder_text(), ScriptCategory::General)
    &&& item_at(nodes, 28, "Tile"@, scripts_gnome_ext::placeholder_text(), ScriptCategory::General)
    &&& item_at(nodes, 29, "PaperWM"@, scripts_gnome_ext::placeholder_text(), ScriptCategory::General)
    &&& menu_at(nodes, 30, "Tiling WM"@, seq![27, 28, 29])
    &&& item_at(nodes, 31, "status area horizontal spacing"@, scripts_gnome_ext::placeholder_text(), ScriptCategory::General)
    &&& item_at(nodes, 32, "vitals"@, scripts_gnome_ext::placeholder_text(), ScriptCategory::General)
    &&& menu_at(nodes, 33, "Top Bar"@, seq![31, 32])
    &&& item_at(nodes, 34, "Just Perfection"@, scripts_gnome_ext::placeholder_text(), ScriptCategory::General)
    &&& menu_at(nodes, 35, "Tweaks"@, seq![34])
    &&& item_at(nodes, 36, "Search Light"@, scripts_gnome_ext::placeholder_text(), ScriptCategory::General)
    &&& menu_at(nodes, 37, "Search / Launchers"@, seq![36])
    &&& menu_at(nodes, 38, "Customization / Extensions"@, seq![30, 33, 35, 37])
    &&& item_at(nodes, 39, "Ptyxis"@, scripts_gnome_apps::placeholder_text(), ScriptCategory::General)
    &&& item_at(nodes, 40, "Konsole"@, scripts_gnome_apps::konsole_text(), ScriptCategory::General)
    &&& item_at(nodes, 41, "Allacritty"@, scripts_gnome_apps::placeholder_text(), ScriptCategory::General)
    &&& item_at(nodes, 42, "Ghostty"@, scripts_gnome_apps::placeholder_text(), ScriptCategory::General)
    &&& menu_at(nodes, 43, "Terminals"@, seq![39, 40, 41, 42])
    &&& item_at(nodes, 44, "Filezilla"@, scripts_gnome_apps::filezilla_text(), ScriptCategory::General)
    &&& item_at(nodes, 45, "Remmina"@, scripts_gnome_apps::remmina_text(), ScriptCategory::General)
    &&& menu_at(nodes, 46, "Remote Connection"@, seq![44, 45])
    &&& item_at(nodes, 47, "Firefox"@, scripts_gnome_apps::firefox_text(), ScriptCategory::General)
    &&& item_at(nodes, 48, "Chromium"@, scripts_gnome_apps::chromium_text(), ScriptCategory::General)
    &&& menu_at(nodes, 49, "Browsers"@, seq![47, 48])
    &&& menu_at(nodes, 50, "Applications / Packages"@, seq![43, 46, 49])
    &&& menu_at(nodes, 51, "Gnome DE - STABLE"@, seq![26, 38, 50])
    &&& item_at(nodes, 52, "v1.10"@, scripts_sway::compile_from_source_text(), ScriptCategory::General)
    &&& menu_at(nodes, 53, "Compile from Source"@, seq![52])
    &&& menu_at(nodes, 54, "Environment Installation"@, seq![53])
    &&& item_at(nodes, 55, "Wofi"@, scripts_sway::install_wofi_text(), ScriptCategory::General)
    &&& item_at(nodes, 56, "Swaybg"@, scripts_sway::install_swaybg_text(), ScriptCategory::General)
    &&& item_at(nodes, 57, "Waybar"@, scripts_sway::install_waybar_text(), ScriptCategory::General)
    &&& menu_at(nodes, 58, "Customization / Extentsions"@, seq![55, 56, 57])
    &&& menu_at(nodes, 59, "Sway WM"@, seq![54, 58])
    &&& menu_at(nodes, 60, "Graphical Environments"@, seq![51, 59])
}

/// The networking and repositories branches of the catalog, and the root.
pub open spec fn catalog_net_repos(nodes: Seq<MenuNode>) -> bool {
    &&& item_at(nodes, 61, "OpenVPN"@, scripts_net::install_vpn_ovpn_text(), ScriptCategory::General)
    &&& item_at(nodes, 62, "OpenConnect"@, scripts_net::install_vpn_oconn_text(), ScriptCategory::General)
    &&& item_at(nodes, 63, "L2TP"@, scripts_net::install_vpn_l2tp_text(), ScriptCategory::General)
    &&& item_at(nodes, 64, "LibreSwan"@, scripts_net::install_vpn_lswan_text(), ScriptCategory::General)
    &&& item_at(nodes, 65, "StrongSwan"@, scripts_net::install_vpn_sswan_text(), ScriptCategory::General)
    &&& item_at(nodes, 66, "PPTP"@, scripts_net::install_vpn_pptp_text(), ScriptCategory::General)
    &&& menu_at(nodes, 67, "NetworkManager"@, seq![61, 62, 63, 64, 65, 66])
    &&& menu_at(nodes, 68, "Networking"@, seq![67])
    &&& item_at(nodes, 69, "realtime"@, scripts_repos::add_rt_text(), ScriptCategory::Repository)
    &&& item_at(nodes, 70, "plus"@, scripts_repos::add_plus_text(), ScriptCategory::Repository)
    &&& item_at(nodes, 71, "nfv"@, scripts_repos::add_nfv_text(), ScriptCategory::Repository)
    &&& item_at(nodes, 72, "High availibility"@, scripts_repos::add_ha_text(), ScriptCategory::Repository)
    &&& item_at(nodes, 73, "extras"@, scripts_repos::add_extras_text(), ScriptCategory::Repository)
    &&& item_at(nodes, 74, "devel (WARNING)"@, scripts_repos::add_devel_text(), ScriptCategory::Repository)
    &&& item_at(nodes, 75, "CRB (code ready builder)"@, scripts_repos::add_crb_text(), ScriptCategory::Repository)
    &&& item_at(nodes, 76, "base OS"@, scripts_repos::add_baseos_text(), ScriptCategory::Repository)
    &&& item_at(nodes, 77, "appstream"@, scripts_repos::add_appstream_text(), ScriptCategory::Repository)
    &&& item_at(nodes, 78, "epel"@, scripts_repos::add_epel_text(), ScriptCategory::Repository)
    &&& item_at(nodes, 79, "flathub"@, scripts_repos::add_flathub_text(), ScriptCategory::Repository)
    &&& menu_at(nodes, 80, "Add Repositories (ROCKY LINUX SPECIFIC)"@, seq![69, 70, 71, 72, 73, 74, 75, 76, 77, 78, 79])
    &&& menu_at(nodes, 81, "Repositories"@, seq![80])
    &&& menu_at(nodes, 82, "Main Menu"@, seq![23, 60, 68, 81])
}

/// The whole catalog, node by node: every item with its shell text and
/// category, every container with its children in sorted order.
pub open spec fn catalog_shape(nodes: Seq<MenuNode>) -> bool {
    &&& nodes.len() == 83
    &&& catalog_virt(nodes)
    &&& catalog_graphical(nodes)
    &&& catalog_net_repos(nodes)
}

/// A child list holding a single node.
fn vec1(x: usize) -> (r: Vec<usize>)
    ensures
        r@ == seq![x],
{
    let mut v: Vec<usize> = Vec::new();
    v.push(x);
    proof {
        assert(v@ =~= seq![x]);
    }
    v
}

/// Builds the menu tree for a distribution: deterministic and total. The
/// result is well formed, every container's children sorted
/// case-insensitively by name at all depths, no item selected, and the
/// root container named "Main Menu".
#[verifier::rlimit(100)]
pub fn build_menu_tree(os: OsDistribution) -> (r: MenuTree)
    ensures
        r.wf(),
        tree_sorted(r.nodes@),
        all_unselected(r.nodes@),
        node_name(r.nodes@[r.root()]) == "Main Menu"@,
        catalog_shape(r.nodes@),
{
    let s = get_script_set(os);
    let mut t = MenuTree::new();
    proof {
        assert(nodes_wf(t.nodes@));
        assert(all_unselected(t.nodes@));
    }
    let gen = ScriptCategory::General;
    let rep = ScriptCategory::Repository;

    // Virtualization > Virtualization Engines > KVM Core & Tools
    let i_kvm_base = t.push_item("Base Installation", s.kvm_base, gen);
    let i_kvm_full = t.push_item("Full Installation", s.kvm_full, gen);
    let i_virt_manager = t.push_item("virt-manager", s.kvm_virt_manager, gen);
    let i_tigervnc = t.push_item("tigervnc", s.kvm_tigervnc, gen);
    let i_kvm_remmina = t.push_item("remmina", s.kvm_remmina, gen);
    let m_kvm_modules = t.push_menu("Modules", vec![i_virt_manager, i_tigervnc, i_kvm_remmina]);
    let i_libvirt_net = t.push_item("libvirt network create", s.kvm_libvirt_net_create, gen);
    let m_kvm_setup = t.push_menu("Setup Scripts", vec1(i_libvirt_net));
    let m_kvm_core = t.push_menu(
        "KVM Core & Tools",
        vec![i_kvm_base, i_kvm_full, m_kvm_modules, m_kvm_setup],
    );

    // Virtualization > Virtualization Engines > XEN
    let i_xen_base = t.push_item("Base Installation", s.install_xen, gen);
    let m_xen_core = t.push_menu("XEN Core & Tools", vec1(i_xen_base));
    let m_xen_mgmt = t.push_menu("XEN Management", Vec::new());
    let m_virt_engines = t.push_menu(
        "Virtualization Engines",
        vec![m_kvm_core, m_xen_core, m_xen_mgmt],
    );

    // Virtualization > KVM Management > Cockpit
    let i_cp_base = t.push_item("Base Installation", s.cockpit_base, gen);
    let i_cp_full = t.push_item("Full Installation", s.cockpit_full, gen);
    let i_cp_storage = t.push_item("storage", s.cockpit_storage, gen);
    let i_cp_podman = t.push_item("podman", s.cockpit_podman, gen);
    let i_cp_files = t.push_item("files", s.cockpit_files, gen);
    let i_cp_imgbuild = t.push_item("image builder", s.cockpit_image_builder, gen);
    let i_cp_machines = t.push_item("machines", s.cockpit_machines, gen);
    let m_cp_modules = t.push_menu(
        "Modules",
        vec![i_cp_storage, i_cp_podman, i_cp_files, i_cp_imgbuild, i_cp_machines],
    );
    let m_cockpit = t.push_menu("Cockpit", vec![i_cp_base, i_cp_full, m_cp_modules]);
    let m_kvm_mgmt = t.push_menu("KVM Management", vec1(m_cockpit));
    let m_virtualization = t.push_menu("Virtualization", vec![m_virt_engines, m_kvm_mgmt]);

    // Graphical Environments > Gnome DE - STABLE
    let i_g_base = t.push_item("Base Installation", s.gnome_base, gen);
    let i_g_full = t.push_item("Full Installation", s.gnome_full, gen);
    let m_gnome_env = t.push_menu("Environment Installation", vec![i_g_base, i_g_full]);
    let i_forge = t.push_item("Forge", s.gnome_ext_forge, gen);
    let i_tile = t.push_item("Tile", s.gnome_ext_tile, gen);
    let i_paperwm = t.push_item("PaperWM", s.gnome_ext_paperwm, gen);
    let m_tiling = t.push_menu("Tiling WM", vec![i_forge, i_tile, i_paperwm]);
    let i_hspacing = t.push_item("status area horizontal spacing", s.gnome_ext_hspacing, gen);
    let i_vitals = t.push_item("vitals", s.gnome_ext_vitals, gen);
    let m_topbar = t.push_menu("Top Bar", vec![i_hspacing, i_vitals]);
    let i_justperf = t.push_item("Just Perfection", s.gnome_ext_just_perfection, gen);
    let m_tweaks = t.push_menu("Tweaks", vec1(i_justperf));
    let i_searchlight = t.push_item("Search Light", s.gnome_ext_search_light, gen);
    let m_search = t.push_menu("Search / Launchers", vec1(i_searchlight));
    let m_gnome_cust = t.push_menu(
        "Customization / Extensions",
        vec![m_tiling, m_topbar, m_tweaks, m_search],
    );
    let i_ptyxis = t.push_item("Ptyxis", s.app_ptyxis, gen);
    let i_konsole = t.push_item("Konsole", s.app_konsole, gen);
    let i_alacritty = t.push_item("Allacritty", s.app_alacritty, gen);
    let i_ghostty = t.push_item("Ghostty", s.app_ghostty, gen);
    let m_terms = t.push_menu("Terminals", vec![i_ptyxis, i_konsole, i_alacritty, i_ghostty]);
    let i_filezilla = t.push_item("Filezilla", s.app_filezilla, gen);
    let i_remmina_app = t.push_item("Remmina", s.app_remmina, gen);
    let m_remote = t.push_menu("Remote Connection", vec![i_filezilla, i_remmina_app]);
    let i_firefox = t.push_item("Firefox", s.app_firefox, gen);
    let i_chromium = t.push_item("Chromium", s.app_chromium, gen);
    let m_browsers = t.push_menu("Browsers", vec![i_firefox, i_chromium]);
    let m_gnome_apps = t.push_menu(
        "Applications / Packages",
        vec![m_terms, m_remote, m_browsers],
    );
    let m_gnome = t.push_menu(
        "Gnome DE - STABLE",
        vec![m_gnome_env, m_gnome_cust, m_gnome_apps],
    );

    // Graphical Environments > Sway WM
    let i_sway_v110 = t.push_item("v1.10", s.sway_compile_1_10, gen);
    let m_compile = t.push_menu("Compile from Source", vec1(i_sway_v110));
    let m_sway_env = t.push_menu("Environment Installation", vec1(m_compile));
    let i_wofi = t.push_item("Wofi", s.sway_wofi, gen);
    let i_swaybg = t.push_item("Swaybg", s.sway_swaybg, gen);
    let i_waybar = t.push_item("Waybar", s.sway_waybar, gen);
    let m_sway_cust = t.push_menu(
        "Customization / Extentsions",
        vec![i_wofi, i_swaybg, i_waybar],
    );
    let m_sway = t.push_menu("Sway WM", vec![m_sway_env, m_sway_cust]);
    let m_graphical = t.push_menu("Graphical Environments", vec![m_gnome, m_sway]);

    // Networking
    let i_ovpn = t.push_item("OpenVPN", s.net_vpn_ovpn, gen);
    let i_oconn = t.push_item("OpenConnect", s.net_vpn_oconn, gen);
    let i_l2tp = t.push_item("L2TP", s.net_vpn_l2tp, gen);
    let i_lswan = t.push_item("LibreSwan", s.net_vpn_lswan, gen);
    let i_sswan = t.push_item("StrongSwan", s.net_vpn_sswan, gen);
    let i_pptp = t.push_item("PPTP", s.net_vpn_pptp, gen);
    let m_nm = t.push_menu(
        "NetworkManager",
        vec![i_ovpn, i_oconn, i_l2tp, i_lswan, i_sswan, i_pptp],
    );
    let m_networking = t.push_menu("Networking", vec1(m_nm));

    // Repositories
    let i_rt = t.push_item("realtime", s.repo_rt, rep);
    let i_plus = t.push_item("plus", s.repo_plus, rep);
    let i_nfv = t.push_item("nfv", s.repo_nfv, rep);
    let i_ha = t.push_item("High availibility", s.repo_ha, rep);
    let i_extras = t.push_item("extras", s.repo_extras, rep);
    let i_devel = t.push_item("devel (WARNING)", s.repo_devel, rep);
    let i_crb = t.push_item("CRB (code ready builder)", s.repo_crb, rep);
    let i_baseos = t.push_item("base OS", s.repo_baseos, rep);
    let i_appstream = t.push_item("appstream", s.repo_appstream, rep);
    let i_epel = t.push_item("epel", s.repo_epel, rep);
    let i_flathub = t.push_item("flathub", s.repo_flathub, rep);
    let m_addrepos = t.push_menu(
        "Add Repositories (ROCKY LINUX SPECIFIC)",
        vec![
            i_rt, i_plus, i_nfv, i_ha, i_extras, i_devel, i_crb, i_baseos, i_appstream, i_epel,
            i_flathub,
        ],
    );
    let m_repos = t.push_menu("Repositories", vec1(m_addrepos));

    let root = t.push_menu(
        "Main Menu",
        vec![m_virtualization, m_graphical, m_networking, m_repos],
    );
    proof {
        assert(root as int == t.nodes@.len() - 1);
        assert(nodes_wf(t.nodes@));
        assert(all_unselected(t.nodes@));
    }

    let ghost orig = t.nodes@;
    sort_menu_recursively(&mut t);
    proof {
        assert(node_sort_rel(orig, t.nodes@, 0));
        assert(node_sort_rel(orig, t.nodes@, 1));
        assert(node_sort_rel(orig, t.nodes@, 2));
        assert(node_sort_rel(orig, t.nodes@, 3));
        assert(node_sort_rel(orig, t.nodes@, 4));
        assert(node_sort_rel(orig, t.nodes@, 5));
        assert(node_sort_rel(orig, t.nodes@, 6));
        assert(node_sort_rel(orig, t.nodes@, 7));
        assert(node_sort_rel(orig, t.nodes@, 8));
        assert(node_sort_rel(orig, t.nodes@, 9));
        assert(node_sort_rel(orig, t.nodes@, 10));
        assert(node_sort_rel(orig, t.nodes@, 11));
        assert(node_sort_rel(orig, t.nodes@, 12));
        assert(node_sort_rel(orig, t.nodes@, 13));
        assert(node_sort_rel(orig, t.nodes@, 14));
        assert(node_sort_rel(orig, t.nodes@, 15));
        assert(node_sort_rel(orig, t.nodes@, 16));
        assert(node_sort_rel(orig, t.nodes@, 17));
        assert(node_sort_rel(orig, t.nodes@, 18));
        assert(node_sort_rel(orig, t.nodes@, 19));
        assert(node_sort_rel(orig, t.nodes@, 20));
        assert(node_sort_rel(orig, t.nodes@, 21));
        assert(node_sort_rel(orig, t.nodes@, 22));
        assert(node_sort_rel(orig, t.nodes@, 23));
        assert(node_sort_rel(orig, t.nodes@, 24));
        assert(node_sort_rel(orig, t.nodes@, 25));
        assert(node_sort_rel(orig, t.nodes@, 26));
        assert(node_sort_rel(orig, t.nodes@, 27));
        assert(node_sort_rel(orig, t.nodes@, 28));
        assert(node_sort_rel(orig, t.nodes@, 29));
        assert(node_sort_rel(orig, t.nodes@, 30));
        assert(node_sort_rel(orig, t.nodes@, 31));
        assert(node_sort_rel(orig, t.nodes@, 32));
        assert(node_sort_rel(orig, t.nodes@, 33));
        assert(node_sort_rel(orig, t.nodes@, 34));
        assert(node_sort_rel(orig, t.nodes@, 35));
        assert(node_sort_rel(orig, t.nodes@, 36));
        assert(node_sort_rel(orig, t.nodes@, 37));
        assert(node_sort_rel(orig, t.nodes@, 38));
        assert(node_sort_rel(orig, t.nodes@, 39));
        assert(node_sort_rel(orig, t.nodes@, 40));
        assert(node_sort_rel(orig, t.nodes@, 41));
        assert(node_sort_rel(orig, t.nodes@, 42));
        assert(node_sort_rel(orig, t.nodes@, 43));
        assert(node_sort_rel(orig, t.nodes@, 44));
        assert(node_sort_rel(orig, t.nodes@, 45));
        assert(node_sort_rel(orig, t.nodes@, 46));
        assert(node_sort_rel(orig, t.nodes@, 47));
        assert(node_sort_rel(orig, t.nodes@, 48));
        assert(node_sort_rel(orig, t.nodes@, 49));
        assert(node_sort_rel(orig, t.nodes@, 50));
        assert(node_sort_rel(orig, t.nodes@, 51));
        assert(node_sort_rel(orig, t.nodes@, 52));
        assert(node_sort_rel(orig, t.nodes@, 53));
        assert(node_sort_rel(orig, t.nodes@, 54));
        assert(node_sort_rel(orig, t.nodes@, 55));
        assert(node_sort_rel(orig, t.nodes@, 56));
        assert(node_sort_rel(orig, t.nodes@, 57));
        assert(node_sort_rel(orig, t.nodes@, 58));
        assert(node_sort_rel(orig, t.nodes@, 59));
        assert(node_sort_rel(orig, t.nodes@, 60));
        assert(node_sort_rel(orig, t.nodes@, 61));
        assert(node_sort_rel(orig, t.nodes@, 62));
        assert(node_sort_rel(orig, t.nodes@, 63));
        assert(node_sort_rel(orig, t.nodes@, 64));
        assert(node_sort_rel(orig, t.nodes@, 65));
        assert(node_sort_rel(orig, t.nodes@, 66));
        assert(node_sort_rel(orig, t.nodes@, 67));
        assert(node_sort_rel(orig, t.nodes@, 68));
        assert(node_sort_rel(orig, t.nodes@, 69));
        assert(node_sort_rel(orig, t.nodes@, 70));
        assert(node_sort_rel(orig, t.nodes@, 71));
        assert(node_sort_rel(orig, t.nodes@, 72));
        assert(node_sort_rel(orig, t.nodes@, 73));
        assert(node_sort_rel(orig, t.nodes@, 74));
        assert(node_sort_rel(orig, t.nodes@, 75));
        assert(node_sort_rel(orig, t.nodes@, 76));
        assert(node_sort_rel(orig, t.nodes@, 77));
        assert(node_sort_rel(orig, t.nodes@, 78));
        assert(node_sort_rel(orig, t.nodes@, 79));
        assert(node_sort_rel(orig, t.nodes@, 80));
        assert(node_sort_rel(orig, t.nodes@, 81));
        assert(node_sort_rel(orig, t.nodes@, 82));
        assert(node_sort_rel(orig, t.nodes@, orig.len() - 1));
        assert(t.nodes@[t.nodes@.len() - 1] is Menu);
        assert(node_name(t.nodes@[t.root()]) == "Main Menu"@);
        assert forall|i: int| 0 <= i < t.nodes@.len() implies ((#[trigger] t.nodes@[i])
            matches MenuNode::Item { selected, .. } ==> !selected) by {
            assert(node_sort_rel(orig, t.nodes@, i));
            assert(all_unselected(orig));
            match orig[i] {
                MenuNode::Item { .. } => {
                    assert(t.nodes@[i] == orig[i]);
                },
                MenuNode::Menu { .. } => {},
            }
        }
    }
    t
}

} // verus!
