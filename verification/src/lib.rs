//! An interactive menu over a catalog of optional installation steps for
//! Enterprise Linux systems, and a generator that turns the current selection
//! into a shell script (repository-enabling commands first, then the rest).
//!
//! The menu is a tree of containers and toggleable items, held in an arena:
//! a node table in which every container stores the indices of its children
//! and every child index is smaller than its parent's, so the tree is acyclic
//! by construction. A navigation cursor (a path of node indices plus a
//! selected index) walks it; the script generator reads it.

pub mod app;
pub mod display;
pub mod generate;
pub mod menu;
pub mod scripts;
pub mod scripts_gnome;
pub mod scripts_gnome_apps;
pub mod scripts_gnome_ext;
pub mod scripts_net;
pub mod scripts_repos;
pub mod scripts_sway;
pub mod scripts_virt;
pub mod sorting;

pub use app::{ActionAfterExit, App};
pub use display::get_visible_nodes;
pub use generate::generate_script;
pub use menu::{MenuNode, MenuTree, OsDistribution, ScriptCategory, SelectedItem};
pub use scripts::{build_menu_tree, get_script_set, ScriptSet};
pub use sorting::sort_menu_recursively;
