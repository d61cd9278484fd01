//! Tests of the built menu tree: sorting, counts, and navigation.

use elmenu::{build_menu_tree, get_visible_nodes, App, MenuNode, MenuTree, OsDistribution};

/// The display name of a node.
fn name_of(n: &MenuNode) -> &str {
    match n {
        MenuNode::Item { name, .. } => name,
        MenuNode::Menu { name, .. } => name,
    }
}

/// Finds the index of the item with the given display name.
fn find_item(tree: &MenuTree, name: &str) -> usize {
    for (i, n) in tree.nodes.iter().enumerate() {
        if let MenuNode::Item { name: nm, .. } = n {
            if nm == name {
                return i;
            }
        }
    }
    panic!("no item named {}", name);
}

/// Finds the index of the container with the given display name.
fn find_menu(tree: &MenuTree, name: &str) -> usize {
    for (i, n) in tree.nodes.iter().enumerate() {
        if let MenuNode::Menu { name: nm, .. } = n {
            if nm == name {
                return i;
            }
        }
    }
    panic!("no container named {}", name);
}

#[test]
fn every_container_sorted_case_insensitively() {
    let tree = build_menu_tree(OsDistribution::Rocky);
    let mut containers = 0;
    for n in tree.nodes.iter() {
        if let MenuNode::Menu { children, .. } = n {
            containers += 1;
            for w in children.windows(2) {
                let a = name_of(&tree.nodes[w[0]]).to_lowercase();
                let b = name_of(&tree.nodes[w[1]]).to_lowercase();
                assert!(a <= b, "unsorted children: {} > {}", a, b);
            }
        }
    }
    assert!(containers > 0);
}

#[test]
fn root_is_main_menu_and_nothing_selected() {
    let tree = build_menu_tree(OsDistribution::Rhel);
    match &tree.nodes[tree.nodes.len() - 1] {
        MenuNode::Menu { name, .. } => assert_eq!(name, "Main Menu"),
        MenuNode::Item { .. } => panic!("root is not a container"),
    }
    for n in tree.nodes.iter() {
        if let MenuNode::Item { selected, .. } = n {
            assert!(!selected);
        }
    }
}

#[test]
fn visible_nodes_at_root_flattens_whole_tree() {
    let app = App::new(OsDistribution::Rocky);
    let visible = get_visible_nodes(&app.menu_tree, &app.nav_path);
    // One entry per item or container in the whole tree, the root excepted.
    assert_eq!(visible.len(), app.menu_tree.nodes.len() - 1);
    // The root view draws tree connectors and checkboxes.
    assert!(visible.iter().any(|(line, _)| line.contains("├─")));
    assert!(visible.iter().any(|(line, _)| line.contains("└─")));
    assert!(visible.iter().any(|(line, _)| line.contains("[ ]")));
}

#[test]
fn visible_nodes_in_submenu_lists_direct_children_only() {
    let mut app = App::new(OsDistribution::Rocky);
    let m = find_menu(&app.menu_tree, "NetworkManager");
    app.enter(m);
    assert_eq!(app.nav_path.len(), 2);
    assert_eq!(app.selected_index, 0);
    let visible = get_visible_nodes(&app.menu_tree, &app.nav_path);
    match &app.menu_tree.nodes[m] {
        MenuNode::Menu { children, .. } => assert_eq!(visible.len(), children.len()),
        MenuNode::Item { .. } => unreachable!(),
    }
    // Six VPN plugins, each a checkbox line, no recursion markers.
    assert_eq!(visible.len(), 6);
    assert!(visible.iter().all(|(line, _)| line.contains("[ ]")));
}

#[test]
fn submenu_rendering_marks_last_child() {
    let mut app = App::new(OsDistribution::Rocky);
    let m = find_menu(&app.menu_tree, "NetworkManager");
    app.enter(m);
    let visible = get_visible_nodes(&app.menu_tree, &app.nav_path);
    let n = visible.len();
    for (k, (line, _)) in visible.iter().enumerate() {
        if k == n - 1 {
            assert!(line.starts_with("└─"));
        } else {
            assert!(line.starts_with("├─"));
        }
    }
}

#[test]
fn toggle_twice_restores_selected_flag() {
    let mut app = App::new(OsDistribution::Rocky);
    let i = find_item(&app.menu_tree, "Firefox");
    let before = app.generate_commands(false);
    app.enter(i);
    match &app.menu_tree.nodes[i] {
        MenuNode::Item { selected, .. } => assert!(*selected),
        MenuNode::Menu { .. } => unreachable!(),
    }
    app.enter(i);
    match &app.menu_tree.nodes[i] {
        MenuNode::Item { selected, .. } => assert!(!*selected),
        MenuNode::Menu { .. } => unreachable!(),
    }
    assert_eq!(app.generate_commands(false), before);
}

#[test]
fn back_at_root_is_a_noop() {
    let mut app = App::new(OsDistribution::Rocky);
    app.selected_index = 5;
    app.back();
    assert_eq!(app.nav_path.len(), 1);
    assert_eq!(app.selected_index, 5);
}

#[test]
fn back_leaves_submenu_and_resets_index() {
    let mut app = App::new(OsDistribution::Rocky);
    let m = find_menu(&app.menu_tree, "Repositories");
    app.enter(m);
    app.selected_index = 3;
    app.back();
    assert_eq!(app.nav_path.len(), 1);
    assert_eq!(app.selected_index, 0);
}

#[test]
fn move_selection_wraps_around() {
    let mut app = App::new(OsDistribution::Rocky);
    let len = get_visible_nodes(&app.menu_tree, &app.nav_path).len();
    assert!(len > 1);
    app.move_selection(-1);
    assert_eq!(app.selected_index, len - 1);
    app.move_selection(1);
    assert_eq!(app.selected_index, 0);
    app.move_selection(1);
    assert_eq!(app.selected_index, 1);
}

#[test]
fn move_selection_in_empty_menu_stays_at_zero() {
    let mut app = App::new(OsDistribution::Rocky);
    let m = find_menu(&app.menu_tree, "XEN Management");
    app.enter(m);
    assert_eq!(get_visible_nodes(&app.menu_tree, &app.nav_path).len(), 0);
    app.move_selection(1);
    assert_eq!(app.selected_index, 0);
    app.move_selection(-1);
    assert_eq!(app.selected_index, 0);
}

#[test]
fn get_selected_items_reports_names_in_preorder() {
    let mut app = App::new(OsDistribution::Rocky);
    assert!(app.get_selected_items().is_empty());
    let a = find_item(&app.menu_tree, "Firefox");
    let b = find_item(&app.menu_tree, "epel");
    app.enter(a);
    app.enter(b);
    let names = app.get_selected_items();
    assert_eq!(names.len(), 2);
    assert!(names.contains(&"Firefox".to_string()));
    assert!(names.contains(&"epel".to_string()));
}

#[test]
fn duplicate_names_are_distinct_nodes() {
    let tree = build_menu_tree(OsDistribution::Rocky);
    let base_installs = tree
        .nodes
        .iter()
        .filter(|n| matches!(n, MenuNode::Item { name, .. } if name == "Base Installation"))
        .count();
    assert_eq!(base_installs, 4);
}
