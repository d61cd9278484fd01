//! The visible-node list the presentation layer renders: at the root, a
//! flattened recursive rendering of the whole tree with tree-drawing
//! connectors; inside a sub-menu, just the direct children with simple
//! connectors.

use vstd::prelude::*;
use vstd::string::StringExecFns;
use crate::menu::{node_wf, nodes_wf, MenuNode, MenuTree};

verus! {

/// The number of nodes (items and containers alike) in the subtree rooted
/// at node `i`, the root included.
pub open spec fn count_node(nodes: Seq<MenuNode>, i: int) -> int
    decreases i, 1int, 0int
    when 0 <= i < nodes.len() && nodes_wf(nodes)
{
    match nodes[i] {
        MenuNode::Item { .. } => 1,
        MenuNode::Menu { children, .. } => 1 + count_children(nodes, children@, i),
    }
}

/// The number of nodes in the subtrees of each of `children`.
pub open spec fn count_children(nodes: Seq<MenuNode>, children: Seq<usize>, bound: int) -> int
    decreases bound, 0int, children.len()
    when bound <= nodes.len() && nodes_wf(nodes)
        && forall|k: int| 0 <= k < children.len() ==> 0 <= (#[trigger] children[k]) < bound
{
    if children.len() == 0 {
        0
    } else {
        count_node(nodes, children[0] as int) + count_children(nodes, children.drop_first(), bound)
    }
}

/// One rendered entry of the flattened tree view: the display line for
/// node `i`, then, when `i` is a container, its children rendered below it
/// with the prefix extended.
pub open spec fn render_node(nodes: Seq<MenuNode>, i: int, prefix: Seq<char>, is_last: bool) -> Seq<
    (Seq<char>, usize),
>
    decreases i, 1int, 0int
    when 0 <= i < nodes.len() && nodes_wf(nodes)
{
    let line = prefix + (if is_last {
        "└─"@
    } else {
        "├─"@
    });
    match nodes[i] {
        MenuNode::Item { name, selected, .. } => seq![
            (line + " "@ + (if selected {
                "[x]"@
            } else {
                "[ ]"@
            }) + " "@ + name@, i as usize),
        ],
        MenuNode::Menu { name, children } => seq![(line + " "@ + name@ + " >"@, i as usize)]
            + render_children(
            nodes,
            children@,
            prefix + (if is_last {
                "   "@
            } else {
                "│  "@
            }),
            i,
        ),
    }
}

/// The flattened rendering of the subtrees of each of `children` in turn;
/// only the final child of a container draws the closing connector.
pub open spec fn render_children(
    nodes: Seq<MenuNode>,
    children: Seq<usize>,
    prefix: Seq<char>,
    bound: int,
) -> Seq<(Seq<char>, usize)>
    decreases bound, 0int, children.len()
    when bound <= nodes.len() && nodes_wf(nodes)
        && forall|k: int| 0 <= k < children.len() ==> 0 <= (#[trigger] children[k]) < bound
{
    if children.len() == 0 {
        Seq::empty()
    } else {
        render_node(nodes, children[0] as int, prefix, children.len() == 1) + render_children(
            nodes,
            children.drop_first(),
            prefix,
            bound,
        )
    }
}

/// The one-level rendering shown inside a sub-menu: each direct child on
/// one line with a simple connector, no recursion into grandchildren.
pub open spec fn render_shallow(nodes: Seq<MenuNode>, children: Seq<usize>) -> Seq<
    (Seq<char>, usize),
>
    decreases children.len(),
{
    if children.len() == 0 {
        Seq::empty()
    } else {
        let c = children[0] as int;
        let connector = (if children.len() == 1 {
            "└─"@
        } else {
            "├─"@
        });
        let entry = match nodes[c] {
            MenuNode::Menu { name, .. } => (connector + " "@ + name@ + " >"@, children[0]),
            MenuNode::Item { name, selected, .. } => (connector + " "@ + (if selected {
                "[x]"@
            } else {
                "[ ]"@
            }) + " "@ + name@, children[0]),
        };
        seq![entry] + render_shallow(nodes, children.drop_first())
    }
}

/// What `get_visible_nodes` shows for a navigation path: the whole tree
/// flattened at the root, one level elsewhere, nothing when the current
/// node is not a container.
pub open spec fn visible_spec(nodes: Seq<MenuNode>, path: Seq<usize>) -> Seq<(Seq<char>, usize)> {
    let cur = path.last() as int;
    match nodes[cur] {
        MenuNode::Menu { children, .. } => if path.len() == 1 {
            render_children(nodes, children@, Seq::empty(), cur)
        } else {
            render_shallow(nodes, children@)
        },
        MenuNode::Item { .. } => Seq::empty(),
    }
}

/// The view of an entry list: each display string replaced by its
/// character sequence.
pub open spec fn entries_view(s: Seq<(String, usize)>) -> Seq<(Seq<char>, usize)> {
    Seq::new(s.len(), |i: int| (s[i].0@, s[i].1))
}

/// The flattened rendering of the first `k` children, each with the
/// closing connector exactly when it is the last child of the whole list.
pub open spec fn render_upto(
    nodes: Seq<MenuNode>,
    children: Seq<usize>,
    prefix: Seq<char>,
    k: int,
) -> Seq<(Seq<char>, usize)>
    decreases k,
{
    if k <= 0 {
        Seq::empty()
    } else {
        render_upto(nodes, children, prefix, k - 1) + render_node(
            nodes,
            children[k - 1] as int,
            prefix,
            k - 1 == children.len() - 1,
        )
    }
}

/// The first `k` children rendered together with the remaining suffix give
/// the whole child list's rendering.
pub proof fn lemma_render_split(
    nodes: Seq<MenuNode>,
    children: Seq<usize>,
    prefix: Seq<char>,
    bound: int,
    k: int,
)
    requires
        bound <= nodes.len(),
        nodes_wf(nodes),
        forall|j: int| 0 <= j < children.len() ==> 0 <= (#[trigger] children[j]) < bound,
        0 <= k <= children.len(),
    ensures
        render_upto(nodes, children, prefix, k) + render_children(
            nodes,
            children.skip(k),
            prefix,
            bound,
        ) == render_children(nodes, children, prefix, bound),
    decreases k,
{
    if k == 0 {
        assert(children.skip(0) =~= children);
        assert(render_upto(nodes, children, prefix, 0) + render_children(
            nodes,
            children,
            prefix,
            bound,
        ) =~= render_children(nodes, children, prefix, bound));
    } else {
        lemma_render_split(nodes, children, prefix, bound, k - 1);
        let sk1 = children.skip(k - 1);
        assert(sk1[0] == children[k - 1]);
        assert(sk1.drop_first() =~= children.skip(k));
        assert(sk1.len() == 1 <==> k - 1 == children.len() - 1);
        assert(render_children(nodes, sk1, prefix, bound) == render_node(
            nodes,
            children[k - 1] as int,
            prefix,
            k - 1 == children.len() - 1,
        ) + render_children(nodes, children.skip(k), prefix, bound));
        assert(render_upto(nodes, children, prefix, k) + render_children(
            nodes,
            children.skip(k),
            prefix,
            bound,
        ) =~= render_upto(nodes, children, prefix, k - 1) + render_children(
            nodes,
            sk1,
            prefix,
            bound,
        ));
    }
}

/// The one-level rendering of the first `k` children.
pub open spec fn shallow_upto(nodes: Seq<MenuNode>, children: Seq<usize>, k: int) -> Seq<
    (Seq<char>, usize),
>
    decreases k,
{
    if k <= 0 {
        Seq::empty()
    } else {
        let c = children[k - 1] as int;
        let connector = (if k - 1 == children.len() - 1 {
            "└─"@
        } else {
            "├─"@
        });
        let entry = match nodes[c] {
            MenuNode::Menu { name, .. } => (connector + " "@ + name@ + " >"@, children[k - 1]),
            MenuNode::Item { name, selected, .. } => (connector + " "@ + (if selected {
                "[x]"@
            } else {
                "[ ]"@
            }) + " "@ + name@, children[k - 1]),
        };
        shallow_upto(nodes, children, k - 1).push(entry)
    }
}

/// The first `k` children's one-level rendering together with the suffix
/// give the whole one-level rendering.
pub proof fn lemma_shallow_split(nodes: Seq<MenuNode>, children: Seq<usize>, k: int)
    requires
        0 <= k <= children.len(),
    ensures
        shallow_upto(nodes, children, k) + render_shallow(nodes, children.skip(k))
            == render_shallow(nodes, children),
    decreases k,
{
    if k == 0 {
        assert(children.skip(0) =~= children);
        assert(shallow_upto(nodes, children, 0) + render_shallow(nodes, children)
            =~= render_shallow(nodes, children));
    } else {
        lemma_shallow_split(nodes, children, k - 1);
        let sk1 = children.skip(k - 1);
        assert(sk1[0] == children[k - 1]);
        assert(sk1.drop_first() =~= children.skip(k));
        assert(sk1.len() == 1 <==> k - 1 == children.len() - 1);
        assert(shallow_upto(nodes, children, k) + render_shallow(nodes, children.skip(k))
            =~= shallow_upto(nodes, children, k - 1) + render_shallow(nodes, sk1));
    }
}

/// A rendered subtree has exactly one entry per node of the subtree.
pub proof fn lemma_render_node_count(
    nodes: Seq<MenuNode>,
    i: int,
    prefix: Seq<char>,
    is_last: bool,
)
    requires
        nodes_wf(nodes),
        0 <= i < nodes.len(),
    ensures
        render_node(nodes, i, prefix, is_last).len() == count_node(nodes, i),
    decreases i, 1int, 0int,
{
    match nodes[i] {
        MenuNode::Item { .. } => {},
        MenuNode::Menu { children, .. } => {
            assert(node_wf(nodes, i));
            lemma_render_children_count(
                nodes,
                children@,
                prefix + (if is_last {
                    "   "@
                } else {
                    "│  "@
                }),
                i,
            );
        },
    }
}

/// A rendered child list has exactly one entry per node below it.
pub proof fn lemma_render_children_count(
    nodes: Seq<MenuNode>,
    children: Seq<usize>,
    prefix: Seq<char>,
    bound: int,
)
    requires
        nodes_wf(nodes),
        bound <= nodes.len(),
        forall|j: int| 0 <= j < children.len() ==> 0 <= (#[trigger] children[j]) < bound,
    ensures
        render_children(nodes, children, prefix, bound).len() == count_children(
            nodes,
            children,
            bound,
        ),
    decreases bound, 0int, children.len(),
{
    if children.len() > 0 {
        lemma_render_node_count(nodes, children[0] as int, prefix, children.len() == 1);
        lemma_render_children_count(nodes, children.drop_first(), prefix, bound);
    }
}

/// A one-level rendering has exactly one entry per direct child.
pub proof fn lemma_render_shallow_len(nodes: Seq<MenuNode>, children: Seq<usize>)
    ensures
        render_shallow(nodes, children).len() == children.len(),
    decreases children.len(),
{
    if children.len() > 0 {
        lemma_render_shallow_len(nodes, children.drop_first());
    }
}

/// The visible list at the root flattens the whole tree: one entry per
/// item or container, the root itself excepted. Inside a sub-menu it holds
/// exactly the direct children.
pub proof fn lemma_visible_len(nodes: Seq<MenuNode>, path: Seq<usize>)
    requires
        nodes_wf(nodes),
        path.len() > 0,
        path.last() < nodes.len(),
        nodes[path.last() as int] is Menu,
    ensures
        path.len() == 1 ==> visible_spec(nodes, path).len() == count_node(
            nodes,
            path.last() as int,
        ) - 1,
        path.len() > 1 ==> visible_spec(nodes, path).len() == nodes[
            path.last() as int
        ]->Menu_children@.len(),
{
    let cur = path.last() as int;
    let children = nodes[cur]->Menu_children@;
    assert(node_wf(nodes, cur));
    if path.len() == 1 {
        lemma_render_children_count(nodes, children, Seq::empty(), cur);
    } else {
        lemma_render_shallow_len(nodes, children);
    }
}

/// Renders the subtree of node `i` into `out`: its own line, then its
/// children indented below it.
fn render_node_exec(
    nodes: &Vec<MenuNode>,
    i: usize,
    prefix: &str,
    is_last: bool,
    out: &mut Vec<(String, usize)>,
)
    requires
        nodes_wf(nodes@),
        i < nodes@.len(),
    ensures
        entries_view(final(out)@) == entries_view(old(out)@) + render_node(
            nodes@,
            i as int,
            prefix@,
            is_last,
        ),
    decreases i,
{
    let ghost out0 = out@;
    let mut line = String::from_str(prefix);
    line.append(if is_last { "└─" } else { "├─" });
    match &nodes[i] {
        MenuNode::Item { name, selected, .. } => {
            line.append(" ");
            line.append(if *selected { "[x]" } else { "[ ]" });
            line.append(" ");
            line.append(name.as_str());
            out.push((line, i));
            proof {
                assert(entries_view(out@) =~= entries_view(out0) + render_node(
                    nodes@,
                    i as int,
                    prefix@,
                    is_last,
                ));
            }
        },
        MenuNode::Menu { name, children } => {
            line.append(" ");
            line.append(name.as_str());
            line.append(" >");
            out.push((line, i));
            let mut sub_prefix = String::from_str(prefix);
            sub_prefix.append(if is_last { "   " } else { "│  " });
            let ghost base = entries_view(out@);
            let ghost subp = sub_prefix@;
            proof {
                assert(node_wf(nodes@, i as int));
                assert(base =~= entries_view(out0) + seq![
                    (prefix@ + (if is_last {
                        "└─"@
                    } else {
                        "├─"@
                    }) + " "@ + name@ + " >"@, i),
                ]);
            }
            let n = children.len();
            for k in 0..n
                invariant
                    nodes_wf(nodes@),
                    i < nodes@.len(),
                    n == children@.len(),
                    nodes@[i as int] matches MenuNode::Menu { children: cc, .. } && cc@
                        == children@,
                    forall|j: int| 0 <= j < children@.len()
                        ==> (#[trigger] children@[j]) < i,
                    subp == sub_prefix@,
                    entries_view(out@) == base + render_upto(nodes@, children@, subp, k as int),
            {
                render_node_exec(nodes, children[k], sub_prefix.as_str(), k == n - 1, out);
                proof {
                    assert(entries_view(out@) =~= base + render_upto(
                        nodes@,
                        children@,
                        subp,
                        k + 1,
                    ));
                }
            }
            proof {
                lemma_render_split(nodes@, children@, subp, i as int, n as int);
                assert(children@.skip(n as int) =~= Seq::<usize>::empty());
                assert(render_children(nodes@, children@.skip(n as int), subp, i as int)
                    =~= Seq::<(Seq<char>, usize)>::empty());
                assert(render_upto(nodes@, children@, subp, n as int) =~= render_children(
                    nodes@,
                    children@,
                    subp,
                    i as int,
                ));
                assert(entries_view(out@) =~= entries_view(out0) + render_node(
                    nodes@,
                    i as int,
                    prefix@,
                    is_last,
                ));
            }
        },
    }
}

/// The list the presentation layer shows for the current navigation path:
/// at the root the whole tree flattened with tree-drawing connectors, in a
/// sub-menu the direct children only. Each entry carries the display line
/// and the index of the node it stands for.
pub fn get_visible_nodes(tree: &MenuTree, nav_path: &Vec<usize>) -> (r: Vec<(String, usize)>)
    requires
        tree.wf(),
        nav_path@.len() > 0,
        nav_path@.last() < tree.nodes@.len(),
    ensures
        entries_view(r@) == visible_spec(tree.nodes@, nav_path@),
{
    let mut out: Vec<(String, usize)> = Vec::new();
    let cur = nav_path[nav_path.len() - 1];
    match &tree.nodes[cur] {
        MenuNode::Menu { children, .. } => {
            proof {
                assert(node_wf(tree.nodes@, cur as int));
            }
            let n = children.len();
            if nav_path.len() == 1 {
                for k in 0..n
                    invariant
                        tree.wf(),
                        cur < tree.nodes@.len(),
                        n == children@.len(),
                        tree.nodes@[cur as int] matches MenuNode::Menu { children: cc, .. }
                            && cc@ == children@,
                        forall|j: int| 0 <= j < children@.len()
                            ==> (#[trigger] children@[j]) < cur,
                        entries_view(out@) == render_upto(
                            tree.nodes@,
                            children@,
                            Seq::<char>::empty(),
                            k as int,
                        ),
                {
                    render_node_exec(&tree.nodes, children[k], "", k == n - 1, &mut out);
                    proof {
                        reveal_strlit("");
                        assert(""@ =~= Seq::<char>::empty());
                        assert(entries_view(out@) =~= render_upto(
                            tree.nodes@,
                            children@,
                            Seq::<char>::empty(),
                            k + 1,
                        ));
                    }
                }
                proof {
                    lemma_render_split(
                        tree.nodes@,
                        children@,
                        Seq::<char>::empty(),
                        cur as int,
                        n as int,
                    );
                    assert(children@.skip(n as int) =~= Seq::<usize>::empty());
                    assert(render_children(
                        tree.nodes@,
                        children@.skip(n as int),
                        Seq::<char>::empty(),
                        cur as int,
                    ) =~= Seq::<(Seq<char>, usize)>::empty());
                    assert(entries_view(out@) =~= visible_spec(tree.nodes@, nav_path@));
                }
            } else {
                for k in 0..n
                    invariant
                        tree.wf(),
                        cur < tree.nodes@.len(),
                        n == children@.len(),
                        tree.nodes@[cur as int] matches MenuNode::Menu { children: cc, .. }
                            && cc@ == children@,
                        forall|j: int| 0 <= j < children@.len()
                            ==> (#[trigger] children@[j]) < cur,
                        entries_view(out@) == shallow_upto(tree.nodes@, children@, k as int),
                {
                    let c = children[k];
                    let mut line = String::new();
                    line.append(if k == n - 1 { "└─" } else { "├─" });
                    match &tree.nodes[c] {
                        MenuNode::Menu { name, .. } => {
                            line.append(" ");
                            line.append(name.as_str());
                            line.append(" >");
                        },
                        MenuNode::Item { name, selected, .. } => {
                            line.append(" ");
                            line.append(if *selected { "[x]" } else { "[ ]" });
                            line.append(" ");
                            line.append(name.as_str());
                        },
                    }
                    out.push((line, c));
                    proof {
                        assert(entries_view(out@) =~= shallow_upto(
                            tree.nodes@,
                            children@,
                            k + 1,
                        ));
                    }
                }
                proof {
                    lemma_shallow_split(tree.nodes@, children@, n as int);
                    assert(children@.skip(n as int) =~= Seq::<usize>::empty());
                    assert(render_shallow(tree.nodes@, children@.skip(n as int))
                        =~= Seq::<(Seq<char>, usize)>::empty());
                    assert(shallow_upto(tree.nodes@, children@, n as int) + render_shallow(
                        tree.nodes@,
                        children@.skip(n as int),
                    ) =~= shallow_upto(tree.nodes@, children@, n as int));
                    assert(entries_view(out@) =~= visible_spec(tree.nodes@, nav_path@));
                }
            }
        },
        MenuNode::Item { .. } => {
            proof {
                assert(entries_view(out@) =~= visible_spec(tree.nodes@, nav_path@));
            }
        },
    }
    out
}

} // verus!

