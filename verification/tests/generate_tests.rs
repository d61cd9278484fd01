//! Tests of the script generator: header, sections, ordering, and the
//! reboot tail.

use elmenu::{
    build_menu_tree, get_script_set, App, MenuNode, MenuTree, OsDistribution, ScriptCategory,
};

/// Finds the index of the item with the given display name.
fn find_item(tree: &MenuTree, name: &str) -> usize {
    for (i, n) in tree.nodes.iter().enumerate() {
        if let MenuNode::Item { name: nm, .. } = n {
            if nm == name {
                return i;
            }
        }
    }
    panic!("no item named {}", name);
}

#[test]
fn no_selection_script_has_comment_and_no_sections() {
    let app = App::new(OsDistribution::Rocky);
    let script = app.generate_commands(false);
    assert!(script.contains("# No options selected.\n"));
    assert!(!script.contains("# --- 1. ENABLING REPOSITORIES ---"));
    assert!(!script.contains("# --- 2. APPLYING CONFIGURATIONS ---"));
    assert!(!script.contains("All tasks complete"));
}

#[test]
fn header_names_the_distribution() {
    for (os, label) in [
        (OsDistribution::Rhel, "Rhel"),
        (OsDistribution::Centos, "Centos"),
        (OsDistribution::Rocky, "Rocky"),
        (OsDistribution::AlmaLinux, "AlmaLinux"),
        (OsDistribution::Unknown, "Unknown"),
    ] {
        let app = App::new(os);
        let script = app.generate_commands(false);
        assert!(script.starts_with("#!/bin/bash\n"));
        assert!(script.contains(&format!("# Generated for {} by Enterprise Linux TUI\n", label)));
        assert!(script.contains("set -e\n"));
        assert!(script.contains("print_step() {"));
    }
}

#[test]
fn repository_banners_precede_general_banners() {
    let mut app = App::new(OsDistribution::Rocky);
    // A general item that sits before the repositories in the tree walk.
    let general = find_item(&app.menu_tree, "Firefox");
    let repo = find_item(&app.menu_tree, "epel");
    app.enter(general);
    app.enter(repo);
    let script = app.generate_commands(false);
    let repo_pos = script.find("print_step \"epel\"").expect("repo banner missing");
    let gen_pos = script.find("print_step \"Firefox\"").expect("general banner missing");
    assert!(repo_pos < gen_pos);
}

#[test]
fn round_trip_with_reboot_orders_all_parts() {
    let mut app = App::new(OsDistribution::Rocky);
    let repo = find_item(&app.menu_tree, "epel");
    let general = find_item(&app.menu_tree, "Firefox");
    app.enter(repo);
    app.enter(general);
    let script = app.generate_commands(true);

    let shebang = script.find("#!/bin/bash\n").unwrap();
    let set_e = script.find("set -e\n").unwrap();
    let repo_section = script.find("# --- 1. ENABLING REPOSITORIES ---\n").unwrap();
    let repo_action = script
        .find("sudo dnf config-manager --set-enabled crb\nsudo dnf install -y 'https://dl.fedoraproject.org/pub/epel/epel-release-latest-9.noarch.rpm'")
        .unwrap();
    let gen_section = script.find("# --- 2. APPLYING CONFIGURATIONS ---\n").unwrap();
    let gen_action = script.find("sudo dnf install -y firefox").unwrap();
    let reboot_banner = script
        .find("print_step \"All tasks complete. Rebooting now...\"\n")
        .unwrap();
    let delay = script.find("sleep 3\n").unwrap();
    let reboot = script.find("sudo reboot\n").unwrap();
    assert!(shebang < set_e);
    assert!(set_e < repo_section);
    assert!(repo_section < repo_action);
    assert!(repo_action < gen_section);
    assert!(gen_section < gen_action);
    assert!(gen_action < reboot_banner);
    assert!(reboot_banner < delay);
    assert!(delay < reboot);
    // Exactly the two selected banners and the reboot banner, no others.
    assert_eq!(script.matches("print_step \"").count(), 3);
    assert!(!script.contains("# No options selected."));
}

#[test]
fn only_general_selection_skips_repository_section() {
    let mut app = App::new(OsDistribution::Rocky);
    let general = find_item(&app.menu_tree, "Konsole");
    app.enter(general);
    let script = app.generate_commands(false);
    assert!(!script.contains("# --- 1. ENABLING REPOSITORIES ---"));
    assert!(script.contains("# --- 2. APPLYING CONFIGURATIONS ---\n"));
    assert!(script.contains("print_step \"Konsole\"\nsudo dnf install -y konsole\n"));
    assert!(script.contains("print_step \"All tasks complete!\"\n"));
    assert!(!script.contains("sudo reboot"));
}

#[test]
fn only_repository_selection_skips_general_section() {
    let mut app = App::new(OsDistribution::Rocky);
    let repo = find_item(&app.menu_tree, "plus");
    app.enter(repo);
    let script = app.generate_commands(false);
    assert!(script.contains("# --- 1. ENABLING REPOSITORIES ---\n"));
    assert!(
        script.contains("print_step \"plus\"\nsudo dnf config-manager --set-enabled plus\n")
    );
    assert!(!script.contains("# --- 2. APPLYING CONFIGURATIONS ---"));
    assert!(script.contains("print_step \"All tasks complete!\"\n"));
}

#[test]
fn reboot_requested_with_nothing_selected_still_reboots() {
    let app = App::new(OsDistribution::Rocky);
    let script = app.generate_commands(true);
    assert!(script.contains("# No options selected.\n"));
    assert!(script.contains("print_step \"All tasks complete. Rebooting now...\"\n"));
    assert!(script.contains("sleep 3\n"));
    assert!(script.contains("sudo reboot\n"));
}

#[test]
fn generation_is_idempotent_for_fixed_selection() {
    let mut app = App::new(OsDistribution::Rocky);
    let repo = find_item(&app.menu_tree, "extras");
    app.enter(repo);
    let first = app.generate_commands(false);
    let second = app.generate_commands(false);
    assert_eq!(first, second);
}

#[test]
fn multiline_actions_are_embedded_unmodified() {
    let mut app = App::new(OsDistribution::Rocky);
    let item = find_item(&app.menu_tree, "flathub");
    app.enter(item);
    let script = app.generate_commands(false);
    assert!(script.contains(
        "sudo dnf install -y flatpak\nsudo flatpak remote-add --if-not-exists flathub https://dl.flathub.org/repo/flathub.flatpakrepo"
    ));
}

#[test]
fn script_set_holds_the_expected_texts() {
    let s = get_script_set(OsDistribution::Rocky);
    assert_eq!(
        s.kvm_base,
        "sudo dnf install -y qemu-kvm libvirt-daemon-config-network libvirt-daemon-kvm"
    );
    assert_eq!(s.gnome_full, "sudo dnf groupinstall -y 'Workstation'");
    assert_eq!(s.repo_crb, "sudo dnf config-manager --set-enabled crb");
    assert_eq!(s.net_vpn_pptp, "sudo dnf install -y NetworkManager-pptp-gnome");
    assert_eq!(
        s.app_ptyxis,
        "echo 'This app is not in the default repos or requires special installation.'"
    );
}

#[test]
fn repository_items_carry_repository_category() {
    let tree = build_menu_tree(OsDistribution::Rocky);
    let mut repo_items = 0;
    for n in tree.nodes.iter() {
        if let MenuNode::Item { name, category, .. } = n {
            if *category == ScriptCategory::Repository {
                repo_items += 1;
                assert!(
                    ["realtime", "plus", "nfv", "High availibility", "extras",
                        "devel (WARNING)", "CRB (code ready builder)", "base OS", "appstream",
                        "epel", "flathub"]
                        .contains(&name.as_str())
                );
            }
        }
    }
    assert_eq!(repo_items, 11);
}

#[test]
fn script_texts_exposed_by_catalog_functions() {
    assert_eq!(
        elmenu::scripts_virt::cockpit_base(),
        "sudo dnf install -y cockpit\nsudo systemctl enable --now cockpit.socket"
    );
    assert_eq!(elmenu::scripts_gnome_apps::remmina(), "sudo dnf install -y remmina");
    assert_eq!(
        elmenu::scripts_sway::compile_from_source(),
        "echo 'Placeholder for Sway v1.10 compilation script'"
    );
    assert_eq!(
        elmenu::scripts_net::install_vpn_ovpn(),
        "sudo dnf install -y NetworkManager-openvpn-gnome"
    );
}
