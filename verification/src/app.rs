//! The application core: the owned menu tree, the navigation cursor (a
//! path of node indices plus a selected index), and the operations the
//! presentation layer drives. None of these operations can fail.

use vstd::prelude::*;
use crate::display::{get_visible_nodes, visible_spec};
use crate::generate::{generate_script, script_text};
use crate::menu::{all_unselected, selected_in_node, toggled, MenuNode, MenuTree, OsDistribution,
    SelectedItem};
use crate::scripts::{build_menu_tree, catalog_shape};
use crate::sorting::tree_sorted;

verus! {

/// What the presentation layer should do once the interactive session ends.
pub enum ActionAfterExit {
    Quit,
    RunScript(String),
}

/// The application's state: the tree, the cursor, and the configuration
/// the tree was built for.
pub struct App {
    pub menu_tree: MenuTree,
    pub nav_path: Vec<usize>,
    pub selected_index: usize,
    pub os_distro: OsDistribution,
    pub reboot_requested: bool,
}

impl App {
    /// The cursor is sound: the path starts at the root and every element
    /// of it points at a container of the tree.
    pub open spec fn wf(self) -> bool {
        &&& self.menu_tree.wf()
        &&& self.nav_path@.len() > 0
        &&& self.nav_path@[0] as int == self.menu_tree.root()
        &&& forall|j: int| 0 <= j < self.nav_path@.len()
            ==> (#[trigger] self.nav_path@[j]) < self.menu_tree.nodes@.len()
                && self.menu_tree.nodes@[self.nav_path@[j] as int] is Menu
    }

    /// How many entries the visible list currently holds.
    pub open spec fn visible_len(self) -> int {
        visible_spec(self.menu_tree.nodes@, self.nav_path@).len() as int
    }

    /// A fresh application for the given distribution: the sorted,
    /// fully-unselected tree, the cursor at the root, no reboot requested.
    pub fn new(os: OsDistribution) -> (r: App)
        ensures
            r.wf(),
            catalog_shape(r.menu_tree.nodes@),
            tree_sorted(r.menu_tree.nodes@),
            all_unselected(r.menu_tree.nodes@),
            r.nav_path@.len() == 1,
            r.selected_index == 0,
            r.os_distro == os,
            !r.reboot_requested,
    {
        let menu_tree = build_menu_tree(os);
        let root = menu_tree.nodes.len() - 1;
        App {
            menu_tree,
            nav_path: vec![root],
            selected_index: 0,
            os_distro: os,
            reboot_requested: false,
        }
    }

    /// Acts on one node of the tree: entering a container pushes it onto
    /// the path and resets the selected index; entering an item toggles
    /// its `selected` flag and the cursor does not move.
    pub fn enter(&mut self, node: usize)
        requires
            old(self).wf(),
            node < old(self).menu_tree.nodes@.len(),
        ensures
            final(self).wf(),
            final(self).os_distro == old(self).os_distro,
            final(self).reboot_requested == old(self).reboot_requested,
            old(self).menu_tree.nodes@[node as int] is Menu ==> {
                &&& final(self).menu_tree == old(self).menu_tree
                &&& final(self).nav_path@ == old(self).nav_path@.push(node)
                &&& final(self).selected_index == 0
            },
            old(self).menu_tree.nodes@[node as int] is Item ==> {
                &&& final(self).menu_tree.nodes@ == old(self).menu_tree.nodes@.update(
                    node as int,
                    toggled(old(self).menu_tree.nodes@[node as int]),
                )
                &&& final(self).nav_path@ == old(self).nav_path@
                &&& final(self).selected_index == old(self).selected_index
            },
    {
        let replacement: Option<MenuNode> = match &self.menu_tree.nodes[node] {
            MenuNode::Item { name, action, selected, category } => Some(MenuNode::Item {
                name: name.clone(),
                action: action.clone(),
                selected: !*selected,
                category: *category,
            }),
            MenuNode::Menu { .. } => None,
        };
        match replacement {
            Some(nn) => {
                self.menu_tree.nodes[node] = nn;
                proof {
                    let oldn = old(self).menu_tree.nodes@;
                    let newn = self.menu_tree.nodes@;
                    assert(newn == oldn.update(node as int, toggled(oldn[node as int])));
                    assert forall|i: int| 0 <= i < newn.len() implies #[trigger]
                        crate::menu::node_wf(newn, i) by {
                        assert(crate::menu::node_wf(oldn, i));
                        if i != node {
                            assert(newn[i] == oldn[i]);
                        }
                    }
                }
            },
            None => {
                self.nav_path.push(node);
                self.selected_index = 0;
            },
        }
    }

    /// Steps back out of the current sub-menu; at the root this is a
    /// no-op: neither the path length nor the selected index changes.
    pub fn back(&mut self)
        requires
            old(self).wf(),
        ensures
            final(self).wf(),
            final(self).menu_tree == old(self).menu_tree,
            final(self).os_distro == old(self).os_distro,
            final(self).reboot_requested == old(self).reboot_requested,
            old(self).nav_path@.len() > 1 ==> final(self).nav_path@
                == old(self).nav_path@.drop_last() && final(self).selected_index == 0,
            old(self).nav_path@.len() == 1 ==> *final(self) == *old(self),
    {
        if self.nav_path.len() > 1 {
            self.nav_path.pop();
            self.selected_index = 0;
        }
    }

    /// Moves the selected index by one step, wrapping around modulo the
    /// visible-list length; a no-op when the list is empty. An index that
    /// has fallen out of range (a shrunken list) is clamped first.
    pub fn move_selection(&mut self, delta: i32)
        requires
            old(self).wf(),
            delta == 1 || delta == -1,
        ensures
            final(self).wf(),
            final(self).menu_tree == old(self).menu_tree,
            final(self).nav_path@ == old(self).nav_path@,
            final(self).os_distro == old(self).os_distro,
            final(self).reboot_requested == old(self).reboot_requested,
            old(self).visible_len() == 0 ==> final(self).selected_index == 0,
            old(self).visible_len() > 0 ==> {
                let len = old(self).visible_len();
                let clamped = if old(self).selected_index < len {
                    old(self).selected_index as int
                } else {
                    len - 1
                };
                final(self).selected_index == (if delta == 1 {
                    (clamped + 1) % len
                } else {
                    (clamped + len - 1) % len
                })
            },
    {
        let vis = get_visible_nodes(&self.menu_tree, &self.nav_path);
        let len = vis.len();
        if len == 0 {
            self.selected_index = 0;
            return;
        }
        let clamped = if self.selected_index < len {
            self.selected_index
        } else {
            len - 1
        };
        if delta == 1 {
            self.selected_index = if clamped == len - 1 {
                0
            } else {
                clamped + 1
            };
            proof {
                let l = len as int;
                let c = clamped as int;
                if c == l - 1 {
                    assert((c + 1) % l == 0) by (nonlinear_arith)
                        requires c + 1 == l, l > 0;
                } else {
                    assert((c + 1) % l == c + 1) by (nonlinear_arith)
                        requires 0 <= c + 1 < l;
                }
            }
        } else {
            self.selected_index = if clamped == 0 {
                len - 1
            } else {
                clamped - 1
            };
            proof {
                let l = len as int;
                let c = clamped as int;
                if c == 0 {
                    assert((c + l - 1) % l == l - 1) by (nonlinear_arith)
                        requires c == 0, l > 0;
                } else {
                    assert((c + l - 1) % l == c - 1) by (nonlinear_arith)
                        requires 0 < c < l;
                }
            }
        }
    }

    /// Generates the shell script for the current selection state,
    /// repositories first, with an optional reboot tail.
    pub fn generate_commands(&self, reboot: bool) -> (r: String)
        requires
            self.wf(),
        ensures
            r@ == script_text(
                selected_in_node(self.menu_tree.nodes@, self.menu_tree.root()),
                self.os_distro,
                reboot,
            ),
    {
        generate_script(&self.menu_tree, self.os_distro, reboot)
    }

    /// The names of the currently selected items, in pre-order, for the
    /// side panel of the display.
    pub fn get_selected_items(&self) -> (r: Vec<String>)
        requires
            self.wf(),
        ensures
            r@.len() == selected_in_node(self.menu_tree.nodes@, self.menu_tree.root()).len(),
            forall|j: int| 0 <= j < r@.len() ==> (#[trigger] r@[j]) == selected_in_node(
                self.menu_tree.nodes@,
                self.menu_tree.root(),
            )[j].name,
    {
        let mut items: Vec<SelectedItem> = Vec::new();
        self.menu_tree.get_selected_items_info(self.menu_tree.nodes.len() - 1, &mut items);
        let mut out: Vec<String> = Vec::new();
        let n = items.len();
        for k in 0..n
            invariant
                n == items@.len(),
                items@ == selected_in_node(self.menu_tree.nodes@, self.menu_tree.root()),
                out@.len() == k,
                forall|j: int| 0 <= j < k ==> (#[trigger] out@[j]) == items@[j].name,
        {
            out.push(items[k].name.clone());
        }
        out
    }
}

/// Toggling an item twice restores the arena exactly, and with it
/// everything derived from it: the generated script is as before the two
/// toggles, for every root, distribution, and reboot choice.
pub proof fn lemma_toggle_twice(
    nodes: Seq<MenuNode>,
    i: int,
    root: int,
    os: OsDistribution,
    reboot: bool,
)
    requires
        0 <= i < nodes.len(),
        nodes[i] is Item,
    ensures
        nodes.update(i, toggled(nodes[i])).update(
            i,
            toggled(nodes.update(i, toggled(nodes[i]))[i]),
        ) == nodes,
        script_text(
            selected_in_node(
                nodes.update(i, toggled(nodes[i])).update(
                    i,
                    toggled(nodes.update(i, toggled(nodes[i]))[i]),
                ),
                root,
            ),
            os,
            reboot,
        ) == script_text(selected_in_node(nodes, root), os, reboot),
{
    let once = nodes.update(i, toggled(nodes[i]));
    let twice = once.update(i, toggled(once[i]));
    assert(toggled(toggled(nodes[i])) == nodes[i]);
    assert(twice =~= nodes);
}

} // verus!
