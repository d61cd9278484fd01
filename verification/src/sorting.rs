//! Case-insensitive ordering of menu entries and the one-time sort pass
//! that orders every container's children by display name. The sort is
//! stable: entries whose lowercased names are equal keep their original
//! relative order.

use vstd::prelude::*;
use vstd::string::StrSliceExecFns;
use crate::menu::{node_name, node_wf, nodes_wf, MenuNode, MenuTree};

verus! {

/// ASCII lowercasing of one character; other characters are unchanged.
pub open spec fn lower_char(c: char) -> char {
    if 65 <= c as u32 && c as u32 <= 90 {
        (((c as u32) + 32) as u8) as char
    } else {
        c
    }
}

/// Lexicographic "less than or equal" over lowercased characters: the
/// order in which menu entries are displayed.
pub open spec fn lower_le(a: Seq<char>, b: Seq<char>) -> bool
    decreases a.len(),
{
    if a.len() == 0 {
        true
    } else if b.len() == 0 {
        false
    } else if (lower_char(a[0]) as u32) < (lower_char(b[0]) as u32) {
        true
    } else if (lower_char(b[0]) as u32) < (lower_char(a[0]) as u32) {
        false
    } else {
        lower_le(a.drop_first(), b.drop_first())
    }
}

/// The order is total: of any two names, one sorts at or before the other.
pub proof fn lemma_lower_le_total(a: Seq<char>, b: Seq<char>)
    ensures
        lower_le(a, b) || lower_le(b, a),
    decreases a.len(),
{
    if a.len() == 0 || b.len() == 0 {
    } else if (lower_char(a[0]) as u32) == (lower_char(b[0]) as u32) {
        lemma_lower_le_total(a.drop_first(), b.drop_first());
    }
}

/// The order is transitive.
pub proof fn lemma_lower_le_trans(a: Seq<char>, b: Seq<char>, c: Seq<char>)
    requires
        lower_le(a, b),
        lower_le(b, c),
    ensures
        lower_le(a, c),
    decreases a.len(),
{
    if a.len() == 0 {
    } else {
        let la = lower_char(a[0]) as u32;
        let lb = lower_char(b[0]) as u32;
        let lc = lower_char(c[0]) as u32;
        if la == lb && lb == lc {
            lemma_lower_le_trans(a.drop_first(), b.drop_first(), c.drop_first());
        }
    }
}

/// The display name of each node of the arena, by index. The sort order
/// depends on the arena only through these names.
pub open spec fn names_of(nodes: Seq<MenuNode>) -> Seq<Seq<char>> {
    Seq::new(nodes.len(), |i: int| node_name(nodes[i]))
}

/// Node `x` sorts at or before node `y`, by lowercased display name.
pub open spec fn ci_le(names: Seq<Seq<char>>, x: usize, y: usize) -> bool {
    lower_le(names[x as int], names[y as int])
}

/// A child list is sorted case-insensitively ascending by name.
pub open spec fn sorted_ci(names: Seq<Seq<char>>, s: Seq<usize>) -> bool {
    forall|k: int, l: int| 0 <= k < l < s.len() ==> ci_le(names, s[k], s[l])
}

/// Stable insertion of `x` into `s`: `x` goes after every entry that sorts
/// at or before it, so equal names keep their original order.
pub open spec fn insert_sorted(names: Seq<Seq<char>>, s: Seq<usize>, x: usize) -> Seq<usize>
    decreases s.len(),
{
    if s.len() == 0 {
        seq![x]
    } else if ci_le(names, s[0], x) {
        seq![s[0]] + insert_sorted(names, s.drop_first(), x)
    } else {
        seq![x] + s
    }
}

/// The position at which `insert_sorted` places `x`: the number of leading
/// entries that sort at or before it.
pub open spec fn insert_pos(names: Seq<Seq<char>>, s: Seq<usize>, x: usize) -> int
    decreases s.len(),
{
    if s.len() == 0 {
        0
    } else if ci_le(names, s[0], x) {
        1 + insert_pos(names, s.drop_first(), x)
    } else {
        0
    }
}

/// Stable insertion sort of a child list, processing entries left to
/// right; later entries with equal names land after earlier ones.
pub open spec fn sort_children(names: Seq<Seq<char>>, s: Seq<usize>) -> Seq<usize>
    decreases s.len(),
{
    if s.len() == 0 {
        s
    } else {
        insert_sorted(names, sort_children(names, s.drop_last()), s.last())
    }
}

/// `insert_pos` is a valid split point: everything before it sorts at or
/// before `x`, and the entry at it (if any) does not.
pub proof fn lemma_insert_pos(names: Seq<Seq<char>>, s: Seq<usize>, x: usize)
    ensures
        0 <= insert_pos(names, s, x) <= s.len(),
        forall|j: int| 0 <= j < insert_pos(names, s, x) ==> ci_le(names, s[j], x),
        insert_pos(names, s, x) < s.len() ==> !ci_le(names, s[insert_pos(names, s, x)], x),
    decreases s.len(),
{
    if s.len() > 0 && ci_le(names, s[0], x) {
        lemma_insert_pos(names, s.drop_first(), x);
        let p = insert_pos(names, s, x);
        assert forall|j: int| 0 <= j < p implies ci_le(names, s[j], x) by {
            if j > 0 {
                assert(s.drop_first()[j - 1] == s[j]);
                assert(ci_le(names, s.drop_first()[j - 1], x));
            }
        }
        if p < s.len() {
            assert(s.drop_first()[p - 1] == s[p]);
            assert(!ci_le(names, s.drop_first()[p - 1], x));
        }
    }
}

/// `insert_sorted` splits `s` at `insert_pos` and puts `x` between the
/// two halves.
pub proof fn lemma_insert_sorted_split(names: Seq<Seq<char>>, s: Seq<usize>, x: usize)
    ensures
        insert_sorted(names, s, x) == s.take(insert_pos(names, s, x)) + seq![x] + s.skip(
            insert_pos(names, s, x),
        ),
    decreases s.len(),
{
    let p = insert_pos(names, s, x);
    if s.len() == 0 {
        assert(insert_sorted(names, s, x) =~= s.take(0) + seq![x] + s.skip(0));
    } else if ci_le(names, s[0], x) {
        lemma_insert_pos(names, s, x);
        lemma_insert_pos(names, s.drop_first(), x);
        lemma_insert_sorted_split(names, s.drop_first(), x);
        assert(s.drop_first().take(p - 1) =~= s.take(p).drop_first());
        assert(s.drop_first().skip(p - 1) =~= s.skip(p));
        assert(insert_sorted(names, s, x) =~= s.take(p) + seq![x] + s.skip(p));
    } else {
        assert(insert_sorted(names, s, x) =~= s.take(0) + seq![x] + s.skip(0));
    }
}

/// Inserting into a sorted list keeps it sorted and adds one entry.
pub proof fn lemma_insert_sorted_props(names: Seq<Seq<char>>, s: Seq<usize>, x: usize)
    requires
        sorted_ci(names, s),
    ensures
        insert_sorted(names, s, x).len() == s.len() + 1,
        sorted_ci(names, insert_sorted(names, s, x)),
{
    let p = insert_pos(names, s, x);
    let r = insert_sorted(names, s, x);
    lemma_insert_pos(names, s, x);
    lemma_insert_sorted_split(names, s, x);
    assert forall|k: int, l: int| 0 <= k < l < r.len() implies ci_le(names, r[k], r[l]) by {
        if k < p && l < p {
        } else if k < p && l == p {
        } else if k == p && l > p {
            lemma_lower_le_total(names[s[p] as int], names[x as int]);
            if l - 1 > p {
                assert(ci_le(names, s[p], s[l - 1]));
                lemma_lower_le_trans(
                    names[x as int],
                    names[s[p] as int],
                    names[s[l - 1] as int],
                );
            }
        } else if k < p && l > p {
        } else if k > p && l > p {
        }
    }
}

/// Sorting a child list keeps its length and sorts it.
pub proof fn lemma_sort_children_props(names: Seq<Seq<char>>, s: Seq<usize>)
    ensures
        sort_children(names, s).len() == s.len(),
        sorted_ci(names, sort_children(names, s)),
    decreases s.len(),
{
    if s.len() > 0 {
        lemma_sort_children_props(names, s.drop_last());
        lemma_insert_sorted_props(names, sort_children(names, s.drop_last()), s.last());
    }
}

/// Insertion introduces no entry but `x`: a bound on the input entries
/// bounds the output.
pub proof fn lemma_insert_sorted_bound(
    names: Seq<Seq<char>>,
    s: Seq<usize>,
    x: usize,
    bound: int,
)
    requires
        forall|k: int| 0 <= k < s.len() ==> (#[trigger] s[k]) < bound,
        x < bound,
    ensures
        forall|j: int| 0 <= j < insert_sorted(names, s, x).len()
            ==> (#[trigger] insert_sorted(names, s, x)[j]) < bound,
{
    lemma_insert_pos(names, s, x);
    lemma_insert_sorted_split(names, s, x);
}

/// Sorting introduces no new entries: a bound on the input bounds the output.
pub proof fn lemma_sort_children_bound(names: Seq<Seq<char>>, s: Seq<usize>, bound: int)
    requires
        forall|k: int| 0 <= k < s.len() ==> (#[trigger] s[k]) < bound,
    ensures
        forall|j: int| 0 <= j < sort_children(names, s).len()
            ==> (#[trigger] sort_children(names, s)[j]) < bound,
    decreases s.len(),
{
    if s.len() > 0 {
        lemma_sort_children_bound(names, s.drop_last(), bound);
        lemma_insert_sorted_bound(names, sort_children(names, s.drop_last()), s.last(), bound);
    }
}

/// Every container's child list is sorted case-insensitively by name.
pub open spec fn node_sorted(nodes: Seq<MenuNode>, i: int) -> bool {
    match nodes[i] {
        MenuNode::Menu { children, .. } => sorted_ci(names_of(nodes), children@),
        MenuNode::Item { .. } => true,
    }
}

/// The whole tree is sorted: every container, at every depth.
pub open spec fn tree_sorted(nodes: Seq<MenuNode>) -> bool {
    forall|i: int| 0 <= i < nodes.len() ==> #[trigger] node_sorted(nodes, i)
}

/// How one node of the sorted arena relates to the original: items are
/// unchanged, containers keep their name and carry their children stably
/// sorted by the original names.
pub open spec fn node_sort_rel(orig: Seq<MenuNode>, cur: Seq<MenuNode>, j: int) -> bool {
    match orig[j] {
        MenuNode::Item { .. } => cur[j] == orig[j],
        MenuNode::Menu { name, children } => cur[j] matches MenuNode::Menu {
            name: n2,
            children: c2,
        } && n2 == name && c2@ == sort_children(names_of(orig), children@),
    }
}

/// The display name of a node, as a string slice.
pub fn node_name_str(n: &MenuNode) -> (r: &str)
    ensures
        r@ == node_name(*n),
{
    match n {
        MenuNode::Item { name, .. } => name.as_str(),
        MenuNode::Menu { name, .. } => name.as_str(),
    }
}

/// ASCII lowercasing of one character.
pub fn lower_char_exec(c: char) -> (r: char)
    ensures
        r == lower_char(c),
{
    let u = c as u32;
    if 65 <= u && u <= 90 {
        ((u + 32) as u8) as char
    } else {
        c
    }
}

/// Case-insensitive "sorts at or before": the comparison the sort pass uses.
pub fn le_ci(a: &str, b: &str) -> (r: bool)
    ensures
        r == lower_le(a@, b@),
{
    let alen = a.unicode_len();
    let blen = b.unicode_len();
    let mut i: usize = 0;
    proof {
        assert(a@.skip(0) =~= a@);
        assert(b@.skip(0) =~= b@);
    }
    loop
        invariant
            i <= alen,
            i <= blen,
            alen == a@.len(),
            blen == b@.len(),
            lower_le(a@, b@) == lower_le(a@.skip(i as int), b@.skip(i as int)),
        decreases alen - i,
    {
        if i == alen {
            assert(a@.skip(i as int).len() == 0);
            return true;
        }
        if i == blen {
            assert(b@.skip(i as int).len() == 0 && a@.skip(i as int).len() > 0);
            return false;
        }
        let ca = lower_char_exec(a.get_char(i));
        let cb = lower_char_exec(b.get_char(i));
        if (ca as u32) < (cb as u32) {
            assert(a@.skip(i as int)[0] == a@[i as int] && b@.skip(i as int)[0] == b@[i as int]);
            return true;
        }
        if (cb as u32) < (ca as u32) {
            assert(a@.skip(i as int)[0] == a@[i as int] && b@.skip(i as int)[0] == b@[i as int]);
            return false;
        }
        proof {
            let sa = a@.skip(i as int);
            let sb = b@.skip(i as int);
            assert(sa[0] == a@[i as int] && sb[0] == b@[i as int]);
            assert(sa.drop_first() =~= a@.skip(i + 1));
            assert(sb.drop_first() =~= b@.skip(i + 1));
            assert(lower_le(sa, sb) == lower_le(a@.skip(i + 1), b@.skip(i + 1)));
        }
        i = i + 1;
    }
}

/// Inserts node `x` into the sorted child list `out`, after every entry
/// that sorts at or before it.
fn insert_child(nodes: &Vec<MenuNode>, out: &mut Vec<usize>, x: usize)
    requires
        forall|k: int| 0 <= k < old(out)@.len() ==> (#[trigger] old(out)@[k]) < nodes@.len(),
        x < nodes@.len(),
        old(out)@.len() < usize::MAX,
    ensures
        final(out)@ == insert_sorted(names_of(nodes@), old(out)@, x),
{
    let ghost names = names_of(nodes@);
    let n = out.len();
    let mut p: usize = 0;
    let mut scanning = true;
    while scanning && p < n
        invariant
            names == names_of(nodes@),
            p <= n,
            n == out@.len(),
            out@ == old(out)@,
            x < nodes@.len(),
            forall|k: int| 0 <= k < out@.len() ==> (#[trigger] out@[k]) < nodes@.len(),
            forall|j: int| 0 <= j < p ==> ci_le(names, out@[j], x),
            !scanning ==> p < n && !ci_le(names, out@[p as int], x),
        decreases n - p + (if scanning { 1int } else { 0int }),
    {
        let c = out[p];
        let le = le_ci(node_name_str(&nodes[c]), node_name_str(&nodes[x]));
        proof {
            assert(names[c as int] == node_name(nodes@[c as int]));
            assert(names[x as int] == node_name(nodes@[x as int]));
            assert(le == ci_le(names, c, x));
        }
        if le {
            p = p + 1;
        } else {
            scanning = false;
        }
    }
    proof {
        lemma_insert_pos(names, out@, x);
        lemma_insert_sorted_split(names, out@, x);
        assert(p as int == insert_pos(names, out@, x)) by {
            let ip = insert_pos(names, out@, x);
            if p < ip {
                assert(ci_le(names, out@[p as int], x));
            }
            if ip < p {
                assert(ci_le(names, out@[ip], x));
            }
        }
    }
    let ghost before = out@;
    out.insert(p, x);
    proof {
        assert(before.insert(p as int, x) =~= before.take(p as int) + seq![x] + before.skip(
            p as int,
        ));
    }
}

/// Returns the child list `s` stably sorted by the nodes' lowercased names.
fn sort_children_vec(nodes: &Vec<MenuNode>, s: &Vec<usize>) -> (r: Vec<usize>)
    requires
        forall|k: int| 0 <= k < s@.len() ==> (#[trigger] s@[k]) < nodes@.len(),
    ensures
        r@ == sort_children(names_of(nodes@), s@),
{
    let ghost names = names_of(nodes@);
    let mut out: Vec<usize> = Vec::new();
    let n = s.len();
    assert(s@.take(0) =~= Seq::<usize>::empty());
    for k in 0..n
        invariant
            names == names_of(nodes@),
            n == s@.len(),
            forall|j: int| 0 <= j < s@.len() ==> (#[trigger] s@[j]) < nodes@.len(),
            out@ == sort_children(names, s@.take(k as int)),
            out@.len() == k,
            forall|j: int| 0 <= j < out@.len() ==> (#[trigger] out@[j]) < nodes@.len(),
    {
        let ghost prev = out@;
        proof {
            lemma_sort_children_bound(names, s@.take(k as int), nodes@.len() as int);
        }
        insert_child(nodes, &mut out, s[k]);
        proof {
            let taken = s@.take(k + 1);
            assert(taken.drop_last() =~= s@.take(k as int));
            assert(taken.last() == s@[k as int]);
            assert(sort_children(names, taken) == insert_sorted(
                names,
                sort_children(names, taken.drop_last()),
                taken.last(),
            ));
            assert(out@ == sort_children(names, taken));
            lemma_insert_pos(names, prev, s@[k as int]);
            lemma_insert_sorted_split(names, prev, s@[k as int]);
            lemma_insert_sorted_bound(
                names,
                sort_children(names, s@.take(k as int)),
                s@[k as int],
                nodes@.len() as int,
            );
        }
    }
    assert(s@.take(n as int) =~= s@);
    out
}

/// Sorts every container's children case-insensitively ascending by
/// display name, at all depths, stably. The arena reaches every container
/// in one pass over the node table; items are left untouched.
pub fn sort_menu_recursively(tree: &mut MenuTree)
    requires
        nodes_wf(old(tree).nodes@),
    ensures
        final(tree).nodes@.len() == old(tree).nodes@.len(),
        forall|j: int| 0 <= j < old(tree).nodes@.len()
            ==> #[trigger] node_sort_rel(old(tree).nodes@, final(tree).nodes@, j),
        names_of(final(tree).nodes@) == names_of(old(tree).nodes@),
        nodes_wf(final(tree).nodes@),
        tree_sorted(final(tree).nodes@),
{
    let ghost orig = old(tree).nodes@;
    let n = tree.nodes.len();
    for i in 0..n
        invariant
            n == tree.nodes@.len(),
            orig.len() == n,
            nodes_wf(orig),
            forall|j: int| i <= j < n ==> tree.nodes@[j] == orig[j],
            forall|j: int| 0 <= j < i ==> #[trigger] node_sort_rel(orig, tree.nodes@, j),
            names_of(tree.nodes@) == names_of(orig),
            nodes_wf(tree.nodes@),
    {
        let ghost cur = tree.nodes@;
        let replacement: Option<MenuNode> = match &tree.nodes[i] {
            MenuNode::Menu { name, children } => {
                proof {
                    assert(node_wf(cur, i as int));
                }
                let sorted = sort_children_vec(&tree.nodes, children);
                Some(MenuNode::Menu { name: name.clone(), children: sorted })
            },
            MenuNode::Item { .. } => None,
        };
        if let Some(nn) = replacement {
            tree.nodes[i] = nn;
            proof {
                let now = tree.nodes@;
                assert(names_of(now) =~= names_of(orig));
                assert(node_sort_rel(orig, now, i as int)) by {
                    assert(sort_children(names_of(cur), orig[i as int]->Menu_children@)
                        == sort_children(names_of(orig), orig[i as int]->Menu_children@));
                }
                assert forall|j: int| 0 <= j < now.len() implies #[trigger] node_wf(now, j) by {
                    if j != i {
                        assert(node_wf(cur, j));
                        assert(now[j] == cur[j]);
                    } else {
                        assert(node_wf(orig, i as int));
                        lemma_sort_children_bound(
                            names_of(orig),
                            orig[i as int]->Menu_children@,
                            i as int,
                        );
                    }
                }
                assert forall|j: int| 0 <= j < i + 1 implies #[trigger] node_sort_rel(
                    orig,
                    now,
                    j,
                ) by {
                    if j < i {
                        assert(node_sort_rel(orig, cur, j));
                        assert(now[j] == cur[j]);
                    }
                }
            }
        } else {
            proof {
                assert(node_sort_rel(orig, tree.nodes@, i as int));
            }
        }
    }
    proof {
        let fin = tree.nodes@;
        assert forall|i: int| 0 <= i < fin.len() implies #[trigger] node_sorted(fin, i) by {
            assert(node_sort_rel(orig, fin, i));
            match orig[i] {
                MenuNode::Menu { name, children } => {
                    lemma_sort_children_props(names_of(orig), children@);
                },
                MenuNode::Item { .. } => {},
            }
        }
    }
}

} // verus!
