//! The menu tree: node kinds, the arena that owns them, and the
//! specification of which items are currently selected.

use vstd::prelude::*;
use vstd::string::StringExecFns;

verus! {

/// A category for each script to control execution order in the generated
/// script: repository-enabling commands always run before the rest.
#[derive(Debug, PartialEq, Eq, Structural, Clone, Copy)]
pub enum ScriptCategory {
    Repository,
    General,
}

/// The detected Linux distribution the catalog and generated script target.
#[derive(Debug, PartialEq, Eq, Structural, Clone, Copy)]
pub enum OsDistribution {
    Rhel,
    Centos,
    Rocky,
    AlmaLinux,
    Unknown,
}

/// A node of the menu tree: either a toggleable item carrying the shell
/// text of its action, or a container (sub-menu) holding the arena indices
/// of its children.
pub enum MenuNode {
    Item { name: String, action: String, selected: bool, category: ScriptCategory },
    Menu { name: String, children: Vec<usize> },
}

/// A snapshot of one selected item, taken when the script is generated.
pub struct SelectedItem {
    pub name: String,
    pub action: String,
    pub category: ScriptCategory,
}

/// The display name of a node.
pub open spec fn node_name(n: MenuNode) -> Seq<char> {
    match n {
        MenuNode::Item { name, .. } => name@,
        MenuNode::Menu { name, .. } => name@,
    }
}

/// A single node is well formed when all of its child indices are strictly
/// below its own index: children are pushed into the arena before their
/// parent, so every walk that follows child links terminates.
pub open spec fn node_wf(nodes: Seq<MenuNode>, i: int) -> bool {
    match nodes[i] {
        MenuNode::Menu { children, .. } => forall|k: int|
            0 <= k < children@.len() ==> (#[trigger] children@[k]) < i,
        MenuNode::Item { .. } => true,
    }
}

/// Every node of the arena is well formed.
pub open spec fn nodes_wf(nodes: Seq<MenuNode>) -> bool {
    forall|i: int| 0 <= i < nodes.len() ==> #[trigger] node_wf(nodes, i)
}

/// No item of the arena is selected.
pub open spec fn all_unselected(nodes: Seq<MenuNode>) -> bool {
    forall|i: int| 0 <= i < nodes.len()
        ==> ((#[trigger] nodes[i]) matches MenuNode::Item { selected, .. } ==> !selected)
}

/// The menu tree: an arena of nodes whose root is the last entry.
pub struct MenuTree {
    pub nodes: Vec<MenuNode>,
}

impl MenuTree {
    /// The arena index of the root container.
    pub open spec fn root(self) -> int {
        self.nodes@.len() - 1
    }

    /// The tree is well formed: non-empty, acyclic (children before
    /// parents), and rooted in a container.
    pub open spec fn wf(self) -> bool {
        &&& self.nodes@.len() > 0
        &&& nodes_wf(self.nodes@)
        &&& self.nodes@[self.root()] is Menu
    }

    /// An empty arena, to be filled with `push_item` and `push_menu`.
    pub fn new() -> (r: MenuTree)
        ensures
            r.nodes@ == Seq::<MenuNode>::empty(),
    {
        MenuTree { nodes: Vec::new() }
    }

    /// Appends an unselected item to the arena and returns its index.
    pub fn push_item(
        &mut self,
        name: &str,
        action: &str,
        category: ScriptCategory,
    ) -> (idx: usize)
        requires
            old(self).nodes@.len() < usize::MAX,
        ensures
            idx == old(self).nodes@.len(),
            final(self).nodes@ == old(self).nodes@.push(final(self).nodes@.last()),
            (final(self).nodes@.last() matches MenuNode::Item { name: n, action: a, selected, category: c }
                && n@ == name@ && a@ == action@ && selected == false && c == category),
            nodes_wf(old(self).nodes@) ==> nodes_wf(final(self).nodes@),
            all_unselected(old(self).nodes@) ==> all_unselected(final(self).nodes@),
    {
        let idx = self.nodes.len();
        self.nodes.push(MenuNode::Item {
            name: String::from_str(name),
            action: String::from_str(action),
            selected: false,
            category,
        });
        proof {
            let oldn = old(self).nodes@;
            let newn = self.nodes@;
            if nodes_wf(oldn) {
                assert forall|i: int| 0 <= i < newn.len() implies #[trigger] node_wf(newn, i) by {
                    if i < oldn.len() {
                        assert(node_wf(oldn, i));
                        assert(newn[i] == oldn[i]);
                    }
                }
            }
        }
        idx
    }

    /// Appends a container holding the given children and returns its index.
    /// Every child must already stand in the arena, which keeps the arena
    /// well formed.
    pub fn push_menu(&mut self, name: &str, children: Vec<usize>) -> (idx: usize)
        requires
            old(self).nodes@.len() < usize::MAX,
            forall|k: int| 0 <= k < children@.len()
                ==> (#[trigger] children@[k]) < old(self).nodes@.len(),
        ensures
            idx == old(self).nodes@.len(),
            final(self).nodes@ == old(self).nodes@.push(final(self).nodes@.last()),
            (final(self).nodes@.last() matches MenuNode::Menu { name: n, children: c }
                && n@ == name@ && c@ == children@),
            nodes_wf(old(self).nodes@) ==> nodes_wf(final(self).nodes@),
            all_unselected(old(self).nodes@) ==> all_unselected(final(self).nodes@),
    {
        let idx = self.nodes.len();
        self.nodes.push(MenuNode::Menu { name: String::from_str(name), children });
        proof {
            let oldn = old(self).nodes@;
            let newn = self.nodes@;
            if nodes_wf(oldn) {
                assert forall|i: int| 0 <= i < newn.len() implies #[trigger] node_wf(newn, i) by {
                    if i < oldn.len() {
                        assert(node_wf(oldn, i));
                        assert(newn[i] == oldn[i]);
                    }
                }
            }
        }
        idx
    }
}

/// The selected items below node `i`, in pre-order, children in their
/// stored order. Meaningful only on a well-formed arena.
pub open spec fn selected_in_node(nodes: Seq<MenuNode>, i: int) -> Seq<SelectedItem>
    decreases i, 1int, 0int
    when 0 <= i < nodes.len() && nodes_wf(nodes)
{
    match nodes[i] {
        MenuNode::Item { name, action, selected, category } => if selected {
            seq![SelectedItem { name, action, category }]
        } else {
            Seq::empty()
        },
        MenuNode::Menu { children, .. } => selected_in_children(nodes, children@, i),
    }
}

/// The selected items below each of `children` in turn; `bound` is an
/// exclusive upper bound on the child indices, used for termination.
pub open spec fn selected_in_children(
    nodes: Seq<MenuNode>,
    children: Seq<usize>,
    bound: int,
) -> Seq<SelectedItem>
    decreases bound, 0int, children.len()
    when bound <= nodes.len() && nodes_wf(nodes)
        && forall|k: int| 0 <= k < children.len() ==> 0 <= (#[trigger] children[k]) < bound
{
    if children.len() == 0 {
        Seq::empty()
    } else {
        selected_in_node(nodes, children[0] as int) + selected_in_children(
            nodes,
            children.drop_first(),
            bound,
        )
    }
}

/// The same node with its `selected` flag flipped; containers are unchanged.
pub open spec fn toggled(n: MenuNode) -> MenuNode {
    match n {
        MenuNode::Item { name, action, selected, category } => MenuNode::Item {
            name,
            action,
            selected: !selected,
            category,
        },
        MenuNode::Menu { .. } => n,
    }
}

/// In a tree with nothing selected, the walk below any node collects nothing.
pub proof fn lemma_unselected_node_empty(nodes: Seq<MenuNode>, i: int)
    requires
        nodes_wf(nodes),
        all_unselected(nodes),
        0 <= i < nodes.len(),
    ensures
        selected_in_node(nodes, i) == Seq::<SelectedItem>::empty(),
    decreases i, 1int, 0int,
{
    match nodes[i] {
        MenuNode::Item { .. } => {},
        MenuNode::Menu { children, .. } => {
            assert(node_wf(nodes, i));
            lemma_unselected_children_empty(nodes, children@, i);
        },
    }
}

/// In a tree with nothing selected, no child subtree collects anything.
pub proof fn lemma_unselected_children_empty(
    nodes: Seq<MenuNode>,
    children: Seq<usize>,
    bound: int,
)
    requires
        nodes_wf(nodes),
        all_unselected(nodes),
        bound <= nodes.len(),
        forall|k: int| 0 <= k < children.len() ==> 0 <= (#[trigger] children[k]) < bound,
    ensures
        selected_in_children(nodes, children, bound) == Seq::<SelectedItem>::empty(),
    decreases bound, 0int, children.len(),
{
    if children.len() > 0 {
        lemma_unselected_node_empty(nodes, children[0] as int);
        lemma_unselected_children_empty(nodes, children.drop_first(), bound);
        assert(selected_in_node(nodes, children[0] as int) + selected_in_children(
            nodes,
            children.drop_first(),
            bound,
        ) =~= Seq::<SelectedItem>::empty());
    }
}

/// Appending one more child to the walk appends that child's selected items.
pub proof fn lemma_selected_in_children_push(
    nodes: Seq<MenuNode>,
    children: Seq<usize>,
    c: usize,
    bound: int,
)
    requires
        bound <= nodes.len(),
        nodes_wf(nodes),
        forall|k: int| 0 <= k < children.len() ==> 0 <= (#[trigger] children[k]) < bound,
        0 <= c < bound,
    ensures
        selected_in_children(nodes, children.push(c), bound) == selected_in_children(
            nodes,
            children,
            bound,
        ) + selected_in_node(nodes, c as int),
    decreases children.len(),
{
    let pushed = children.push(c);
    assert(forall|k: int| 0 <= k < pushed.len() ==> 0 <= (#[trigger] pushed[k]) < bound);
    if children.len() == 0 {
        assert(pushed.drop_first() =~= Seq::<usize>::empty());
        assert(selected_in_children(nodes, pushed, bound) == selected_in_node(nodes, pushed[0] as int)
            + selected_in_children(nodes, pushed.drop_first(), bound));
        assert(selected_in_children(nodes, pushed, bound) =~= selected_in_node(nodes, c as int));
        assert(selected_in_children(nodes, children, bound) + selected_in_node(nodes, c as int)
            =~= selected_in_node(nodes, c as int));
    } else {
        assert(pushed.drop_first() =~= children.drop_first().push(c));
        lemma_selected_in_children_push(nodes, children.drop_first(), c, bound);
        assert(selected_in_children(nodes, pushed, bound) == selected_in_node(nodes, children[0] as int)
            + (selected_in_children(nodes, children.drop_first(), bound)
                + selected_in_node(nodes, c as int)));
        assert(selected_in_node(nodes, children[0] as int) + (selected_in_children(
            nodes,
            children.drop_first(),
            bound,
        ) + selected_in_node(nodes, c as int)) =~= selected_in_children(nodes, children, bound)
            + selected_in_node(nodes, c as int));
    }
}

impl MenuTree {
    /// Recursively collects a snapshot of every selected item below node
    /// `i`, appending to `out` in pre-order.
    pub fn get_selected_items_info(&self, i: usize, out: &mut Vec<SelectedItem>)
        requires
            self.wf(),
            i < self.nodes@.len(),
        ensures
            final(out)@ == old(out)@ + selected_in_node(self.nodes@, i as int),
        decreases i,
    {
        let ghost out0 = out@;
        match &self.nodes[i] {
            MenuNode::Item { name, action, selected, category } => {
                if *selected {
                    out.push(SelectedItem {
                        name: name.clone(),
                        action: action.clone(),
                        category: *category,
                    });
                } else {
                    assert(out@ =~= out0 + selected_in_node(self.nodes@, i as int));
                }
            },
            MenuNode::Menu { children, .. } => {
                assert(node_wf(self.nodes@, i as int));
                let n = children.len();
                assert(selected_in_children(self.nodes@, children@.take(0), i as int)
                    =~= Seq::<SelectedItem>::empty());
                for k in 0..n
                    invariant
                        self.wf(),
                        i < self.nodes@.len(),
                        n == children@.len(),
                        self.nodes@[i as int] matches MenuNode::Menu { children: cc, .. }
                            && cc@ == children@,
                        forall|j: int| 0 <= j < children@.len()
                            ==> (#[trigger] children@[j]) < i,
                        out@ == out0 + selected_in_children(
                            self.nodes@,
                            children@.take(k as int),
                            i as int,
                        ),
                {
                    let c = children[k];
                    self.get_selected_items_info(c, out);
                    proof {
                        lemma_selected_in_children_push(
                            self.nodes@,
                            children@.take(k as int),
                            c,
                            i as int,
                        );
                        assert(children@.take(k as int).push(c) =~= children@.take(k + 1));
                    }
                }
                assert(children@.take(n as int) =~= children@);
            },
        }
    }
}

} // verus!
