//! Tests of the arena builder, the collector, and the sort pass on small
//! hand-built trees.

use elmenu::{
    generate_script, sort_menu_recursively, App, MenuNode, MenuTree, OsDistribution,
    ScriptCategory,
};

/// A small tree: a root with one item of each category and a sub-menu
/// holding one more item. Children are deliberately unsorted.
fn small_tree() -> MenuTree {
    let mut t = MenuTree::new();
    let zulu = t.push_item("zulu", "echo zulu", ScriptCategory::General);
    let inner = t.push_item("inner", "echo inner", ScriptCategory::General);
    let sub = t.push_menu("Middle", vec![inner]);
    let alpha = t.push_item("Alpha", "echo alpha", ScriptCategory::Repository);
    t.push_menu("Root", vec![zulu, sub, alpha]);
    t
}

fn app_for(tree: MenuTree) -> App {
    let root = tree.nodes.len() - 1;
    App {
        menu_tree: tree,
        nav_path: vec![root],
        selected_index: 0,
        os_distro: OsDistribution::Unknown,
        reboot_requested: false,
    }
}

#[test]
fn push_helpers_build_the_expected_arena() {
    let t = small_tree();
    assert_eq!(t.nodes.len(), 5);
    match &t.nodes[4] {
        MenuNode::Menu { name, children } => {
            assert_eq!(name, "Root");
            assert_eq!(children, &vec![0, 2, 3]);
        }
        MenuNode::Item { .. } => panic!("root is not a container"),
    }
    match &t.nodes[3] {
        MenuNode::Item { name, action, selected, category } => {
            assert_eq!(name, "Alpha");
            assert_eq!(action, "echo alpha");
            assert!(!selected);
            assert_eq!(*category, ScriptCategory::Repository);
        }
        MenuNode::Menu { .. } => panic!("expected an item"),
    }
}

#[test]
fn sort_pass_orders_case_insensitively_and_stably() {
    let mut t = MenuTree::new();
    let b_low = t.push_item("banana", "echo 1", ScriptCategory::General);
    let a_up = t.push_item("APPLE", "echo 2", ScriptCategory::General);
    let a_low_first = t.push_item("apple", "echo 3", ScriptCategory::General);
    let c = t.push_item("Cherry", "echo 4", ScriptCategory::General);
    t.push_menu("Root", vec![b_low, a_up, a_low_first, c]);
    sort_menu_recursively(&mut t);
    match &t.nodes[4] {
        MenuNode::Menu { children, .. } => {
            // "APPLE" and "apple" compare equal case-insensitively, so they
            // keep their original relative order.
            assert_eq!(children, &vec![a_up, a_low_first, b_low, c]);
        }
        MenuNode::Item { .. } => panic!("root is not a container"),
    }
}

#[test]
fn collector_walks_in_preorder() {
    let t = small_tree();
    let mut app = app_for(t);
    // Select all three items.
    app.enter(0);
    app.enter(1);
    app.enter(3);
    let names = app.get_selected_items();
    assert_eq!(names, vec!["zulu", "inner", "Alpha"]);
}

#[test]
fn generate_script_on_custom_tree_partitions_by_category() {
    let t = small_tree();
    let mut app = app_for(t);
    app.enter(0); // zulu, General
    app.enter(3); // Alpha, Repository
    let script = generate_script(&app.menu_tree, OsDistribution::Unknown, false);
    let alpha = script.find("print_step \"Alpha\"\necho alpha\n").unwrap();
    let zulu = script.find("print_step \"zulu\"\necho zulu\n").unwrap();
    assert!(alpha < zulu, "repository item must come first");
    assert!(script.contains("# Generated for Unknown by Enterprise Linux TUI\n"));
}

#[test]
fn entering_a_container_pushes_the_path() {
    let t = small_tree();
    let mut app = app_for(t);
    app.selected_index = 1;
    app.enter(2); // the "Middle" container
    assert_eq!(app.nav_path, vec![4, 2]);
    assert_eq!(app.selected_index, 0);
}

#[test]
fn empty_container_renders_empty_visible_list() {
    let mut t = MenuTree::new();
    let sub = t.push_menu("Empty", Vec::new());
    t.push_menu("Root", vec![sub]);
    let mut app = app_for(t);
    app.enter(sub);
    let visible = elmenu::get_visible_nodes(&app.menu_tree, &app.nav_path);
    assert!(visible.is_empty());
}
