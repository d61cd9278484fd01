//! The script generator: a pure function of the tree's current selection
//! state. Selected items are collected in pre-order, partitioned by
//! category, and rendered as a shell script in which every
//! repository-enabling command precedes every other command.

use vstd::prelude::*;
use vstd::string::StringExecFns;
use crate::menu::{MenuNode, MenuTree, OsDistribution, ScriptCategory, SelectedItem};
use crate::menu::{all_unselected, lemma_unselected_node_empty, nodes_wf, selected_in_node};

verus! {

/// The items of `items` whose category is `cat`, in order (a stable
/// partition step).
pub open spec fn filter_cat(items: Seq<SelectedItem>, cat: ScriptCategory) -> Seq<SelectedItem>
    decreases items.len(),
{
    if items.len() == 0 {
        Seq::empty()
    } else {
        let rest = filter_cat(items.drop_first(), cat);
        if items[0].category == cat {
            seq![items[0]] + rest
        } else {
            rest
        }
    }
}

/// Filtering one more item keeps the filter of the prefix and appends the
/// item when its category matches.
pub proof fn lemma_filter_cat_push(items: Seq<SelectedItem>, x: SelectedItem, cat: ScriptCategory)
    ensures
        filter_cat(items.push(x), cat) == filter_cat(items, cat) + (if x.category == cat {
            seq![x]
        } else {
            Seq::<SelectedItem>::empty()
        }),
    decreases items.len(),
{
    let pushed = items.push(x);
    let tail = (if x.category == cat { seq![x] } else { Seq::<SelectedItem>::empty() });
    if items.len() == 0 {
        assert(pushed.drop_first() =~= Seq::<SelectedItem>::empty());
        assert(filter_cat(pushed.drop_first(), cat) == Seq::<SelectedItem>::empty());
        assert(filter_cat(items, cat) == Seq::<SelectedItem>::empty());
        assert(filter_cat(pushed, cat) =~= filter_cat(items, cat) + tail);
    } else {
        assert(pushed.drop_first() =~= items.drop_first().push(x));
        lemma_filter_cat_push(items.drop_first(), x, cat);
        assert(filter_cat(pushed.drop_first(), cat) == filter_cat(items.drop_first(), cat) + tail);
        assert(filter_cat(pushed, cat) =~= filter_cat(items, cat) + tail);
    }
}

/// The lines rendered for one selected item: a step banner with its name,
/// then its raw action text, then a blank line.
pub open spec fn item_lines(it: SelectedItem) -> Seq<char> {
    "print_step \""@ + it.name@ + "\"\n"@ + it.action@ + "\n"@
}

/// The lines rendered for a list of selected items, in order.
pub open spec fn items_text(items: Seq<SelectedItem>) -> Seq<char>
    decreases items.len(),
{
    if items.len() == 0 {
        Seq::empty()
    } else {
        item_lines(items[0]) + items_text(items.drop_first())
    }
}

/// Rendering one more item appends its lines.
pub proof fn lemma_items_text_push(items: Seq<SelectedItem>, x: SelectedItem)
    ensures
        items_text(items.push(x)) == items_text(items) + item_lines(x),
    decreases items.len(),
{
    let pushed = items.push(x);
    if items.len() == 0 {
        assert(pushed.drop_first() =~= Seq::<SelectedItem>::empty());
        assert(items_text(pushed.drop_first()) == Seq::<char>::empty());
        assert(items_text(items) == Seq::<char>::empty());
        assert(items_text(pushed) =~= items_text(items) + item_lines(x));
    } else {
        assert(pushed.drop_first() =~= items.drop_first().push(x));
        lemma_items_text_push(items.drop_first(), x);
        assert(items_text(pushed.drop_first()) == items_text(items.drop_first()) + item_lines(x));
        assert(items_text(pushed) =~= items_text(items) + item_lines(x));
    }
}

/// The name under which the target distribution appears in the script's
/// leading comment.
pub open spec fn os_label(os: OsDistribution) -> Seq<char> {
    match os {
        OsDistribution::Rhel => "Rhel"@,
        OsDistribution::Centos => "Centos"@,
        OsDistribution::Rocky => "Rocky"@,
        OsDistribution::AlmaLinux => "AlmaLinux"@,
        OsDistribution::Unknown => "Unknown"@,
    }
}

/// The script header: shebang, target comment, `set -e`, and the
/// `print_step` logging helper.
pub open spec fn header_text(os: OsDistribution) -> Seq<char> {
    "#!/bin/bash\n"@ + "# Generated for "@ + os_label(os) + " by Enterprise Linux TUI\n\n"@
        + "# Exit immediately if a command exits with a non-zero status.\nset -e\n\n"@
        + "# Helper for logging steps\nprint_step() {\n    echo\n    echo \"\u{2705} ==> $1\"\n}\n\n"@
}

/// The script footer: a reboot sequence when requested, a completion
/// banner when anything was selected, else nothing.
pub open spec fn footer_text(reboot: bool, any_selected: bool) -> Seq<char> {
    if reboot {
        "\nprint_step \"All tasks complete. Rebooting now...\"\n"@ + "sleep 3\n"@ + "sudo reboot\n"@
    } else if any_selected {
        "\nprint_step \"All tasks complete!\"\n"@
    } else {
        Seq::empty()
    }
}

/// The whole generated script for a given flat list of selected items:
/// header, then the repository section, then the general section, then the
/// footer. Every repository command stands before every general command.
pub open spec fn script_text(items: Seq<SelectedItem>, os: OsDistribution, reboot: bool) -> Seq<
    char,
> {
    let repos = filter_cat(items, ScriptCategory::Repository);
    let general = filter_cat(items, ScriptCategory::General);
    header_text(os) + (if repos.len() == 0 && general.len() == 0 {
        "# No options selected.\n"@
    } else {
        Seq::empty()
    }) + (if repos.len() > 0 {
        "# --- 1. ENABLING REPOSITORIES ---\n"@ + items_text(repos)
    } else {
        Seq::empty()
    }) + (if general.len() > 0 {
        "\n# --- 2. APPLYING CONFIGURATIONS ---\n"@ + items_text(general)
    } else {
        Seq::empty()
    }) + footer_text(reboot, repos.len() > 0 || general.len() > 0)
}

/// When nothing is selected, the script is exactly the header followed by
/// the no-selection comment: no section headers and no completion banner.
pub proof fn lemma_no_selection_script(items: Seq<SelectedItem>, os: OsDistribution)
    requires
        items.len() == 0,
    ensures
        script_text(items, os, false) == header_text(os) + "# No options selected.\n"@,
{
    assert(filter_cat(items, ScriptCategory::Repository).len() == 0);
    assert(filter_cat(items, ScriptCategory::General).len() == 0);
    assert(script_text(items, os, false) =~= header_text(os) + "# No options selected.\n"@);
}

/// For every selection state, the generated script is a prefix, then the
/// lines of all repository-category items, then a middle piece, then the
/// lines of all general-category items, then a tail: every repository
/// command's banner stands before every general command's banner,
/// whatever the items' relative positions in the tree.
pub proof fn lemma_repositories_precede_general(
    items: Seq<SelectedItem>,
    os: OsDistribution,
    reboot: bool,
)
    ensures
        ({
            let repos = filter_cat(items, ScriptCategory::Repository);
            let general = filter_cat(items, ScriptCategory::General);
            let before = header_text(os) + (if repos.len() == 0 && general.len() == 0 {
                "# No options selected.\n"@
            } else {
                Seq::empty()
            }) + (if repos.len() > 0 {
                "# --- 1. ENABLING REPOSITORIES ---\n"@
            } else {
                Seq::empty()
            });
            let between = (if general.len() > 0 {
                "\n# --- 2. APPLYING CONFIGURATIONS ---\n"@
            } else {
                Seq::<char>::empty()
            });
            let after = footer_text(reboot, repos.len() > 0 || general.len() > 0);
            script_text(items, os, reboot) == before + items_text(repos) + between + items_text(
                general,
            ) + after
        }),
{
    let repos = filter_cat(items, ScriptCategory::Repository);
    let general = filter_cat(items, ScriptCategory::General);
    if repos.len() == 0 {
        assert(items_text(repos) == Seq::<char>::empty());
    }
    if general.len() == 0 {
        assert(items_text(general) == Seq::<char>::empty());
    }
    assert(script_text(items, os, reboot) =~= header_text(os) + (if repos.len() == 0
        && general.len() == 0 {
        "# No options selected.\n"@
    } else {
        Seq::empty()
    }) + (if repos.len() > 0 {
        "# --- 1. ENABLING REPOSITORIES ---\n"@
    } else {
        Seq::empty()
    }) + items_text(repos) + (if general.len() > 0 {
        "\n# --- 2. APPLYING CONFIGURATIONS ---\n"@
    } else {
        Seq::<char>::empty()
    }) + items_text(general) + footer_text(reboot, repos.len() > 0 || general.len() > 0));
}

/// A freshly built tree has nothing selected, so its script (without a
/// reboot request) is exactly the header followed by the no-selection
/// comment: no section headers and no completion banner.
pub proof fn lemma_fresh_tree_script(nodes: Seq<MenuNode>, os: OsDistribution, i: int)
    requires
        nodes_wf(nodes),
        all_unselected(nodes),
        0 <= i < nodes.len(),
    ensures
        script_text(selected_in_node(nodes, i), os, false) == header_text(os)
            + "# No options selected.\n"@,
{
    lemma_unselected_node_empty(nodes, i);
    lemma_no_selection_script(selected_in_node(nodes, i), os);
}

/// The target distribution's display name, as it appears in the header.
pub fn os_label_str(os: OsDistribution) -> (r: &'static str)
    ensures
        r@ == os_label(os),
{
    match os {
        OsDistribution::Rhel => "Rhel",
        OsDistribution::Centos => "Centos",
        OsDistribution::Rocky => "Rocky",
        OsDistribution::AlmaLinux => "AlmaLinux",
        OsDistribution::Unknown => "Unknown",
    }
}

/// Renders one selected item into `out`.
fn append_item_lines(out: &mut String, it: &SelectedItem)
    ensures
        final(out)@ == old(out)@ + item_lines(*it),
{
    let ghost base = out@;
    out.append("print_step \"");
    out.append(it.name.as_str());
    out.append("\"\n");
    out.append(it.action.as_str());
    out.append("\n");
    proof {
        assert(out@ =~= base + item_lines(*it));
    }
}

/// Generates the shell script for the tree's current selection state:
/// deterministic, never fails, and places every repository-category command
/// before every general-category command.
pub fn generate_script(tree: &MenuTree, os: OsDistribution, reboot: bool) -> (r: String)
    requires
        tree.wf(),
    ensures
        r@ == script_text(selected_in_node(tree.nodes@, tree.root()), os, reboot),
{
    let mut items: Vec<SelectedItem> = Vec::new();
    tree.get_selected_items_info(tree.nodes.len() - 1, &mut items);
    assert(items@ =~= selected_in_node(tree.nodes@, tree.root()));

    let mut repos: Vec<SelectedItem> = Vec::new();
    let mut general: Vec<SelectedItem> = Vec::new();
    let n = items.len();
    assert(items@.take(0) =~= Seq::<SelectedItem>::empty());
    for k in 0..n
        invariant
            n == items@.len(),
            repos@ == filter_cat(items@.take(k as int), ScriptCategory::Repository),
            general@ == filter_cat(items@.take(k as int), ScriptCategory::General),
    {
        let it = &items[k];
        match it.category {
            ScriptCategory::Repository => {
                repos.push(SelectedItem {
                    name: it.name.clone(),
                    action: it.action.clone(),
                    category: it.category,
                });
            },
            ScriptCategory::General => {
                general.push(SelectedItem {
                    name: it.name.clone(),
                    action: it.action.clone(),
                    category: it.category,
                });
            },
        }
        proof {
            lemma_filter_cat_push(items@.take(k as int), items@[k as int], ScriptCategory::Repository);
            lemma_filter_cat_push(items@.take(k as int), items@[k as int], ScriptCategory::General);
            assert(items@.take(k as int).push(items@[k as int]) =~= items@.take(k + 1));
            assert(repos@ =~= filter_cat(items@.take(k + 1), ScriptCategory::Repository));
            assert(general@ =~= filter_cat(items@.take(k + 1), ScriptCategory::General));
        }
    }
    assert(items@.take(n as int) =~= items@);
    let ghost spec_repos = filter_cat(items@, ScriptCategory::Repository);
    let ghost spec_general = filter_cat(items@, ScriptCategory::General);

    let mut out = String::new();
    out.append("#!/bin/bash\n");
    out.append("# Generated for ");
    out.append(os_label_str(os));
    out.append(" by Enterprise Linux TUI\n\n");
    out.append("# Exit immediately if a command exits with a non-zero status.\nset -e\n\n");
    out.append("# Helper for logging steps\nprint_step() {\n    echo\n    echo \"\u{2705} ==> $1\"\n}\n\n");
    proof {
        assert(out@ =~= header_text(os));
    }

    if repos.len() == 0 && general.len() == 0 {
        out.append("# No options selected.\n");
    }
    let ghost after_noselect = header_text(os) + (if spec_repos.len() == 0
        && spec_general.len() == 0 {
        "# No options selected.\n"@
    } else {
        Seq::<char>::empty()
    });
    proof {
        assert(out@ =~= after_noselect);
    }

    if repos.len() > 0 {
        out.append("# --- 1. ENABLING REPOSITORIES ---\n");
        let ghost base = out@;
        let rn = repos.len();
        assert(repos@.take(0) =~= Seq::<SelectedItem>::empty());
        for k in 0..rn
            invariant
                rn == repos@.len(),
                out@ == base + items_text(repos@.take(k as int)),
        {
            append_item_lines(&mut out, &repos[k]);
            proof {
                lemma_items_text_push(repos@.take(k as int), repos@[k as int]);
                assert(repos@.take(k as int).push(repos@[k as int]) =~= repos@.take(k + 1));
            }
        }
        assert(repos@.take(rn as int) =~= repos@);
    }
    let ghost after_repos = after_noselect + (if spec_repos.len() > 0 {
        "# --- 1. ENABLING REPOSITORIES ---\n"@ + items_text(spec_repos)
    } else {
        Seq::<char>::empty()
    });
    proof {
        assert(out@ =~= after_repos);
    }

    if general.len() > 0 {
        out.append("\n# --- 2. APPLYING CONFIGURATIONS ---\n");
        let ghost base = out@;
        let gn = general.len();
        assert(general@.take(0) =~= Seq::<SelectedItem>::empty());
        for k in 0..gn
            invariant
                gn == general@.len(),
                out@ == base + items_text(general@.take(k as int)),
        {
            append_item_lines(&mut out, &general[k]);
            proof {
                lemma_items_text_push(general@.take(k as int), general@[k as int]);
                assert(general@.take(k as int).push(general@[k as int]) =~= general@.take(k + 1));
            }
        }
        assert(general@.take(gn as int) =~= general@);
    }
    let ghost after_general = after_repos + (if spec_general.len() > 0 {
        "\n# --- 2. APPLYING CONFIGURATIONS ---\n"@ + items_text(spec_general)
    } else {
        Seq::<char>::empty()
    });
    proof {
        assert(out@ =~= after_general);
    }

    if reboot {
        out.append("\nprint_step \"All tasks complete. Rebooting now...\"\n");
        out.append("sleep 3\n");
        out.append("sudo reboot\n");
    } else if repos.len() > 0 || general.len() > 0 {
        out.append("\nprint_step \"All tasks complete!\"\n");
    }
    proof {
        assert(out@ =~= after_general + footer_text(reboot, spec_repos.len() > 0
            || spec_general.len() > 0));
        assert(out@ =~= script_text(items@, os, reboot));
    }
    out
}

} // verus!
