//! Queries on the game's UI tree: each node has an id, a visibility, a
//! disabled flag and its children in order.  Searches walk the tree depth
//! first, a node before its children, children in order.
use vstd::prelude::*;
use crate::clicks::{starts_with, starts_with_exec};
use crate::registry::texts;
use crate::text::{chars_eq, chars_of, copy_range, parse_decimal, parse_unsigned};

verus! {

/// A node of the UI tree, as far as the trade screen reads it.
pub struct UiNode {
    pub id: String,
    pub visible: bool,
    pub disabled: bool,
    pub child: Vec<UiNode>,
}

fn same_id(node: &UiNode, id: &[char]) -> (r: bool)
    ensures
        r == (node.id@ == id@),
{
    let c = chars_of(node.id.as_str());
    chars_eq(c.as_slice(), id)
}

/// The first node, depth first, whose id is `target`.
pub open spec fn find_spec(node: UiNode, target: Seq<char>) -> Option<UiNode>
    decreases node, 1int,
{
    if node.id@ == target {
        Some(node)
    } else {
        find_spec_forest(node.child@, target)
    }
}

pub open spec fn find_spec_forest(nodes: Seq<UiNode>, target: Seq<char>) -> Option<UiNode>
    decreases nodes, 0int,
{
    if nodes.len() == 0 {
        None
    } else {
        match find_spec(nodes[0], target) {
            Some(n) => Some(n),
            None => find_spec_forest(nodes.drop_first(), target),
        }
    }
}

fn find_in<'a>(node: &'a UiNode, target: &[char]) -> (r: Option<&'a UiNode>)
    ensures
        match find_spec(*node, target@) {
            Some(n) => r matches Some(x) && *x == n,
            None => r is None,
        },
    decreases node,
{
    if same_id(node, target) {
        return Some(node);
    }
    let mut i: usize = 0;
    assert(node.child@.skip(0) =~= node.child@);
    while i < node.child.len()
        invariant
            i <= node.child@.len(),
            find_spec(*node, target@) == find_spec_forest(node.child@.skip(i as int), target@),
        decreases node.child@.len() - i,
    {
        let c = &node.child[i];
        assert(node.child@.skip(i as int)[0] == node.child@[i as int]);
        assert(node.child@.skip(i as int).drop_first() =~= node.child@.skip(i + 1));
        match find_in(c, target) {
            Some(found) => {
                assert(find_spec_forest(node.child@.skip(i as int), target@) == find_spec(*c, target@));
                return Some(found);
            },
            None => {},
        }
        i = i + 1;
    }
    assert(node.child@.skip(i as int) =~= Seq::<UiNode>::empty());
    None
}

/// The first node, depth first, whose id is `target`.
pub fn find_node_by_id<'a>(node: &'a UiNode, target: &str) -> (r: Option<&'a UiNode>)
    ensures
        match find_spec(*node, target@) {
            Some(n) => r matches Some(x) && *x == n,
            None => r is None,
        },
{
    let target_c = chars_of(target);
    find_in(node, target_c.as_slice())
}

/// The first node, depth first, whose id is `target`, not looking inside
/// the subtree whose id is `excluded` (that node included).
pub open spec fn find_excluding_spec(node: UiNode, target: Seq<char>, excluded: Seq<char>) -> Option<UiNode>
    decreases node, 1int,
{
    if node.id@ == excluded {
        None
    } else if node.id@ == target {
        Some(node)
    } else {
        find_excluding_spec_forest(node.child@, target, excluded)
    }
}

pub open spec fn find_excluding_spec_forest(nodes: Seq<UiNode>, target: Seq<char>, excluded: Seq<char>) -> Option<UiNode>
    decreases nodes, 0int,
{
    if nodes.len() == 0 {
        None
    } else {
        match find_excluding_spec(nodes[0], target, excluded) {
            Some(n) => Some(n),
            None => find_excluding_spec_forest(nodes.drop_first(), target, excluded),
        }
    }
}

fn find_excluding_in<'a>(node: &'a UiNode, target: &[char], excluded: &[char]) -> (r: Option<&'a UiNode>)
    ensures
        match find_excluding_spec(*node, target@, excluded@) {
            Some(n) => r matches Some(x) && *x == n,
            None => r is None,
        },
    decreases node,
{
    if same_id(node, excluded) {
        return None;
    }
    if same_id(node, target) {
        return Some(node);
    }
    let mut i: usize = 0;
    assert(node.child@.skip(0) =~= node.child@);
    while i < node.child.len()
        invariant
            i <= node.child@.len(),
            find_excluding_spec(*node, target@, excluded@) == find_excluding_spec_forest(node.child@.skip(i as int), target@, excluded@),
        decreases node.child@.len() - i,
    {
        let c = &node.child[i];
        assert(node.child@.skip(i as int)[0] == node.child@[i as int]);
        assert(node.child@.skip(i as int).drop_first() =~= node.child@.skip(i + 1));
        match find_excluding_in(c, target, excluded) {
            Some(found) => {
                assert(find_excluding_spec_forest(node.child@.skip(i as int), target@, excluded@) == find_excluding_spec(*c, target@, excluded@));
                return Some(found);
            },
            None => {},
        }
        i = i + 1;
    }
    assert(node.child@.skip(i as int) =~= Seq::<UiNode>::empty());
    None
}

/// The first node, depth first, whose id is `target`, not looking inside
/// the subtree whose id is `excluded` (that node included).
pub fn find_node_by_id_excluding<'a>(node: &'a UiNode, target: &str, excluded: &str) -> (r: Option<&'a UiNode>)
    ensures
        match find_excluding_spec(*node, target@, excluded@) {
            Some(n) => r matches Some(x) && *x == n,
            None => r is None,
        },
{
    let target_c = chars_of(target);
    let excluded_c = chars_of(excluded);
    find_excluding_in(node, target_c.as_slice(), excluded_c.as_slice())
}

/// The first visible node, depth first, whose id is `target`, not looking
/// inside the subtree whose id is `excluded`.
pub open spec fn find_visible_excluding_spec(node: UiNode, target: Seq<char>, excluded: Seq<char>) -> Option<UiNode>
    decreases node, 1int,
{
    if node.id@ == excluded {
        None
    } else if node.id@ == target && node.visible {
        Some(node)
    } else {
        find_visible_excluding_spec_forest(node.child@, target, excluded)
    }
}

pub open spec fn find_visible_excluding_spec_forest(nodes: Seq<UiNode>, target: Seq<char>, excluded: Seq<char>) -> Option<UiNode>
    decreases nodes, 0int,
{
    if nodes.len() == 0 {
        None
    } else {
        match find_visible_excluding_spec(nodes[0], target, excluded) {
            Some(n) => Some(n),
            None => find_visible_excluding_spec_forest(nodes.drop_first(), target, excluded),
        }
    }
}

fn find_visible_excluding_in<'a>(node: &'a UiNode, target: &[char], excluded: &[char]) -> (r: Option<&'a UiNode>)
    ensures
        match find_visible_excluding_spec(*node, target@, excluded@) {
            Some(n) => r matches Some(x) && *x == n,
            None => r is None,
        },
    decreases node,
{
    if same_id(node, excluded) {
        return None;
    }
    if same_id(node, target) && node.visible {
        return Some(node);
    }
    let mut i: usize = 0;
    assert(node.child@.skip(0) =~= node.child@);
    while i < node.child.len()
        invariant
            i <= node.child@.len(),
            find_visible_excluding_spec(*node, target@, excluded@) == find_visible_excluding_spec_forest(node.child@.skip(i as int), target@, excluded@),
        decreases node.child@.len() - i,
    {
        let c = &node.child[i];
        assert(node.child@.skip(i as int)[0] == node.child@[i as int]);
        assert(node.child@.skip(i as int).drop_first() =~= node.child@.skip(i + 1));
        match find_visible_excluding_in(c, target, excluded) {
            Some(found) => {
                assert(find_visible_excluding_spec_forest(node.child@.skip(i as int), target@, excluded@) == find_visible_excluding_spec(*c, target@, excluded@));
                return Some(found);
            },
            None => {},
        }
        i = i + 1;
    }
    assert(node.child@.skip(i as int) =~= Seq::<UiNode>::empty());
    None
}

/// The first visible node, depth first, whose id is `target`, not looking
/// inside the subtree whose id is `excluded`.
pub fn find_visible_node_by_id_excluding<'a>(node: &'a UiNode, target: &str, excluded: &str) -> (r: Option<&'a UiNode>)
    ensures
        match find_visible_excluding_spec(*node, target@, excluded@) {
            Some(n) => r matches Some(x) && *x == n,
            None => r is None,
        },
{
    let target_c = chars_of(target);
    let excluded_c = chars_of(excluded);
    find_visible_excluding_in(node, target_c.as_slice(), excluded_c.as_slice())
}

/// The first node, depth first, whose id is `target` and that can be used:
/// it and every node above it are visible and enabled.
pub open spec fn find_usable_spec(node: UiNode, target: Seq<char>) -> Option<UiNode>
    decreases node, 1int,
{
    if node.id@ == target && node.visible && !node.disabled {
        Some(node)
    } else if !node.visible || node.disabled {
        None
    } else {
        find_usable_spec_forest(node.child@, target)
    }
}

pub open spec fn find_usable_spec_forest(nodes: Seq<UiNode>, target: Seq<char>) -> Option<UiNode>
    decreases nodes, 0int,
{
    if nodes.len() == 0 {
        None
    } else {
        match find_usable_spec(nodes[0], target) {
            Some(n) => Some(n),
            None => find_usable_spec_forest(nodes.drop_first(), target),
        }
    }
}

fn find_usable_in<'a>(node: &'a UiNode, target: &[char]) -> (r: Option<&'a UiNode>)
    ensures
        match find_usable_spec(*node, target@) {
            Some(n) => r matches Some(x) && *x == n,
            None => r is None,
        },
    decreases node,
{
    if same_id(node, target) && node.visible && !node.disabled {
        return Some(node);
    }
    if !node.visible || node.disabled {
        return None;
    }
    let mut i: usize = 0;
    assert(node.child@.skip(0) =~= node.child@);
    while i < node.child.len()
        invariant
            i <= node.child@.len(),
            find_usable_spec(*node, target@) == find_usable_spec_forest(node.child@.skip(i as int), target@),
        decreases node.child@.len() - i,
    {
        let c = &node.child[i];
        assert(node.child@.skip(i as int)[0] == node.child@[i as int]);
        assert(node.child@.skip(i as int).drop_first() =~= node.child@.skip(i + 1));
        match find_usable_in(c, target) {
            Some(found) => {
                assert(find_usable_spec_forest(node.child@.skip(i as int), target@) == find_usable_spec(*c, target@));
                return Some(found);
            },
            None => {},
        }
        i = i + 1;
    }
    assert(node.child@.skip(i as int) =~= Seq::<UiNode>::empty());
    None
}

/// The first node, depth first, whose id is `target` and that can be used:
/// it and every node above it are visible and enabled.
pub fn find_effectively_visible_node_by_id<'a>(node: &'a UiNode, target: &str) -> (r: Option<&'a UiNode>)
    ensures
        match find_usable_spec(*node, target@) {
            Some(n) => r matches Some(x) && *x == n,
            None => r is None,
        },
{
    let target_c = chars_of(target);
    find_usable_in(node, target_c.as_slice())
}

/// The first node, depth first, with a child whose id is `target`.
pub open spec fn find_parent_spec(node: UiNode, target: Seq<char>) -> Option<UiNode>
    decreases node, 1int,
{
    if child_with_id(node.child@, target) is Some {
        Some(node)
    } else {
        find_parent_spec_forest(node.child@, target)
    }
}

pub open spec fn find_parent_spec_forest(nodes: Seq<UiNode>, target: Seq<char>) -> Option<UiNode>
    decreases nodes, 0int,
{
    if nodes.len() == 0 {
        None
    } else {
        match find_parent_spec(nodes[0], target) {
            Some(n) => Some(n),
            None => find_parent_spec_forest(nodes.drop_first(), target),
        }
    }
}

fn find_parent_in<'a>(node: &'a UiNode, target: &[char]) -> (r: Option<&'a UiNode>)
    ensures
        match find_parent_spec(*node, target@) {
            Some(n) => r matches Some(x) && *x == n,
            None => r is None,
        },
    decreases node,
{
    if has_child_id(node, target) {
        return Some(node);
    }
    let mut i: usize = 0;
    assert(node.child@.skip(0) =~= node.child@);
    while i < node.child.len()
        invariant
            i <= node.child@.len(),
            find_parent_spec(*node, target@) == find_parent_spec_forest(node.child@.skip(i as int), target@),
        decreases node.child@.len() - i,
    {
        let c = &node.child[i];
        assert(node.child@.skip(i as int)[0] == node.child@[i as int]);
        assert(node.child@.skip(i as int).drop_first() =~= node.child@.skip(i + 1));
        match find_parent_in(c, target) {
            Some(found) => {
                assert(find_parent_spec_forest(node.child@.skip(i as int), target@) == find_parent_spec(*c, target@));
                return Some(found);
            },
            None => {},
        }
        i = i + 1;
    }
    assert(node.child@.skip(i as int) =~= Seq::<UiNode>::empty());
    None
}

/// The first node, depth first, with a child whose id is `target`.
pub fn find_parent_of_id<'a>(node: &'a UiNode, target: &str) -> (r: Option<&'a UiNode>)
    ensures
        match find_parent_spec(*node, target@) {
            Some(n) => r matches Some(x) && *x == n,
            None => r is None,
        },
{
    let target_c = chars_of(target);
    find_parent_in(node, target_c.as_slice())
}


// ---------------------------------------------------------------------------
// Children and paths
// ---------------------------------------------------------------------------

/// The first of `nodes` whose id is `id`.
pub open spec fn child_with_id(nodes: Seq<UiNode>, id: Seq<char>) -> Option<UiNode>
    decreases nodes.len(),
{
    if nodes.len() == 0 {
        None
    } else if nodes[0].id@ == id {
        Some(nodes[0])
    } else {
        child_with_id(nodes.drop_first(), id)
    }
}

fn child_in<'a>(node: &'a UiNode, id: &[char]) -> (r: Option<&'a UiNode>)
    ensures
        match child_with_id(node.child@, id@) {
            Some(n) => r matches Some(x) && *x == n,
            None => r is None,
        },
{
    let mut i: usize = 0;
    assert(node.child@.skip(0) =~= node.child@);
    while i < node.child.len()
        invariant
            i <= node.child@.len(),
            child_with_id(node.child@, id@) == child_with_id(node.child@.skip(i as int), id@),
        decreases node.child@.len() - i,
    {
        assert(node.child@.skip(i as int)[0] == node.child@[i as int]);
        assert(node.child@.skip(i as int).drop_first() =~= node.child@.skip(i + 1));
        if same_id(&node.child[i], id) {
            return Some(&node.child[i]);
        }
        i = i + 1;
    }
    assert(node.child@.skip(i as int) =~= Seq::<UiNode>::empty());
    None
}

fn has_child_id(node: &UiNode, id: &[char]) -> (b: bool)
    ensures
        b == child_with_id(node.child@, id@) is Some,
{
    child_in(node, id).is_some()
}

/// The first child of `node` whose id is `id`.
pub fn direct_child<'a>(node: &'a UiNode, id: &str) -> (r: Option<&'a UiNode>)
    ensures
        match child_with_id(node.child@, id@) {
            Some(n) => r matches Some(x) && *x == n,
            None => r is None,
        },
{
    let c = chars_of(id);
    child_in(node, c.as_slice())
}

/// The node reached from `node` by taking, for each id in turn, the first
/// child with that id.
pub open spec fn along_ids(node: UiNode, ids: Seq<Seq<char>>) -> Option<UiNode>
    decreases ids.len(),
{
    if ids.len() == 0 {
        Some(node)
    } else {
        match child_with_id(node.child@, ids[0]) {
            Some(c) => along_ids(c, ids.drop_first()),
            None => None,
        }
    }
}

pub open spec fn id_texts(ids: Seq<&str>) -> Seq<Seq<char>> {
    ids.map_values(|s: &str| s@)
}

pub fn direct_path<'a>(node: &'a UiNode, ids: &[&str]) -> (r: Option<&'a UiNode>)
    ensures
        match along_ids(*node, id_texts(ids@)) {
            Some(n) => r matches Some(x) && *x == n,
            None => r is None,
        },
{
    let mut cur: &'a UiNode = node;
    let mut k: usize = 0;
    assert(id_texts(ids@).skip(0) =~= id_texts(ids@));
    while k < ids.len()
        invariant
            k <= ids@.len(),
            along_ids(*node, id_texts(ids@)) == along_ids(*cur, id_texts(ids@).skip(k as int)),
        decreases ids@.len() - k,
    {
        let ghost rest = id_texts(ids@).skip(k as int);
        assert(rest[0] == ids@[k as int]@);
        assert(rest.drop_first() =~= id_texts(ids@).skip(k + 1));
        match direct_child(cur, ids[k]) {
            Some(c) => {
                cur = c;
            },
            None => return None,
        }
        k = k + 1;
    }
    assert(id_texts(ids@).skip(k as int) =~= Seq::<Seq<char>>::empty());
    Some(cur)
}

/// The node reached from `node` by taking, in turn, the children at the
/// positions of `path`.
pub open spec fn at_path(node: UiNode, path: Seq<usize>) -> Option<UiNode>
    decreases path.len(),
{
    if path.len() == 0 {
        Some(node)
    } else if path[0] < node.child@.len() {
        at_path(node.child@[path[0] as int], path.drop_first())
    } else {
        None
    }
}

pub fn node_by_index_path<'a>(node: &'a UiNode, path: &[usize]) -> (r: Option<&'a UiNode>)
    ensures
        match at_path(*node, path@) {
            Some(n) => r matches Some(x) && *x == n,
            None => r is None,
        },
{
    let mut cur: &'a UiNode = node;
    let mut k: usize = 0;
    assert(path@.skip(0) =~= path@);
    while k < path.len()
        invariant
            k <= path@.len(),
            at_path(*node, path@) == at_path(*cur, path@.skip(k as int)),
        decreases path@.len() - k,
    {
        assert(path@.skip(k as int)[0] == path@[k as int]);
        assert(path@.skip(k as int).drop_first() =~= path@.skip(k + 1));
        let i = path[k];
        if i >= cur.child.len() {
            return None;
        }
        cur = &cur.child[i];
        k = k + 1;
    }
    assert(path@.skip(k as int) =~= Seq::<usize>::empty());
    Some(cur)
}

// ---------------------------------------------------------------------------
// Counting
// ---------------------------------------------------------------------------

/// How many nodes of the tree have the id `target`.
pub open spec fn count_spec(node: UiNode, target: Seq<char>) -> nat
    decreases node, 1int,
{
    (if node.id@ == target { 1nat } else { 0nat }) + count_forest(node.child@, target)
}

pub open spec fn count_forest(nodes: Seq<UiNode>, target: Seq<char>) -> nat
    decreases nodes, 0int,
{
    if nodes.len() == 0 {
        0
    } else {
        count_spec(nodes[0], target) + count_forest(nodes.drop_first(), target)
    }
}

fn count_in(node: &UiNode, target: &[char]) -> (n: usize)
    requires
        count_spec(*node, target@) <= usize::MAX,
    ensures
        n == count_spec(*node, target@),
    decreases node,
{
    let mut n: usize = if same_id(node, target) { 1 } else { 0 };
    let mut i: usize = 0;
    assert(node.child@.skip(0) =~= node.child@);
    while i < node.child.len()
        invariant
            i <= node.child@.len(),
            count_spec(*node, target@) <= usize::MAX,
            n + count_forest(node.child@.skip(i as int), target@) == count_spec(*node, target@),
        decreases node.child@.len() - i,
    {
        assert(node.child@.skip(i as int)[0] == node.child@[i as int]);
        assert(node.child@.skip(i as int).drop_first() =~= node.child@.skip(i + 1));
        let c = count_in(&node.child[i], target);
        n = n + c;
        i = i + 1;
    }
    assert(node.child@.skip(i as int) =~= Seq::<UiNode>::empty());
    n
}

/// How many nodes of the tree have the id `target`.
pub fn count_nodes_by_id(node: &UiNode, target: &str) -> (n: usize)
    requires
        count_spec(*node, target@) <= usize::MAX,
    ensures
        n == count_spec(*node, target@),
{
    let t = chars_of(target);
    count_in(node, t.as_slice())
}

/// The id of the pending-contract row that the trade screen adds.
pub open spec fn pending_row_id() -> Seq<char> {
    "pts_trade_pending_contract_slot_test79_active"@
}

/// How many nodes below `node` (not `node` itself) are pending-contract rows.
pub open spec fn pending_rows(node: UiNode) -> nat
    decreases node, 1int,
{
    pending_rows_forest(node.child@)
}

pub open spec fn pending_rows_forest(nodes: Seq<UiNode>) -> nat
    decreases nodes, 0int,
{
    if nodes.len() == 0 {
        0
    } else {
        (if nodes[0].id@ == pending_row_id() { 1nat } else { 0nat }) + pending_rows(nodes[0])
            + pending_rows_forest(nodes.drop_first())
    }
}

fn pending_rows_in(node: &UiNode, row: &[char]) -> (n: usize)
    requires
        row@ == pending_row_id(),
        pending_rows(*node) <= usize::MAX,
    ensures
        n == pending_rows(*node),
    decreases node,
{
    let mut n: usize = 0;
    let mut i: usize = 0;
    assert(node.child@.skip(0) =~= node.child@);
    while i < node.child.len()
        invariant
            i <= node.child@.len(),
            row@ == pending_row_id(),
            pending_rows(*node) <= usize::MAX,
            n + pending_rows_forest(node.child@.skip(i as int)) == pending_rows(*node),
        decreases node.child@.len() - i,
    {
        assert(node.child@.skip(i as int)[0] == node.child@[i as int]);
        assert(node.child@.skip(i as int).drop_first() =~= node.child@.skip(i + 1));
        let c = &node.child[i];
        if same_id(c, row) {
            n = n + 1;
        }
        let below = pending_rows_in(c, row);
        n = n + below;
        i = i + 1;
    }
    assert(node.child@.skip(i as int) =~= Seq::<UiNode>::empty());
    n
}

/// How many pending-contract rows lie below `node`.
pub fn count_pending_contract_projection_rows(node: &UiNode) -> (n: usize)
    requires
        pending_rows(*node) <= usize::MAX,
    ensures
        n == pending_rows(*node),
{
    let row = chars_of("pts_trade_pending_contract_slot_test79_active");
    pending_rows_in(node, row.as_slice())
}


// ---------------------------------------------------------------------------
// Paths to the parents of a node
// ---------------------------------------------------------------------------

/// The index paths, depth first, of the nodes with a child whose id is
/// `target`, each prefixed by `prefix`, not looking inside the subtree whose
/// id is `excluded`.
pub open spec fn parent_paths(node: UiNode, target: Seq<char>, excluded: Seq<char>, prefix: Seq<usize>) -> Seq<Seq<usize>>
    decreases node, 1int,
{
    if node.id@ == excluded {
        Seq::empty()
    } else {
        (if child_with_id(node.child@, target) is Some { seq![prefix] } else { Seq::empty() })
            + parent_paths_forest(node.child@, target, excluded, prefix, 0)
    }
}

/// The same over `nodes`, the first of which is child number `from`.
pub open spec fn parent_paths_forest(
    nodes: Seq<UiNode>,
    target: Seq<char>,
    excluded: Seq<char>,
    prefix: Seq<usize>,
    from: int,
) -> Seq<Seq<usize>>
    decreases nodes, 0int,
{
    if nodes.len() == 0 {
        Seq::empty()
    } else {
        parent_paths(nodes[0], target, excluded, prefix.push(from as usize)) + parent_paths_forest(
            nodes.drop_first(),
            target,
            excluded,
            prefix,
            from + 1,
        )
    }
}

pub open spec fn paths_view(v: Seq<Vec<usize>>) -> Seq<Seq<usize>> {
    v.map_values(|p: Vec<usize>| p@)
}

fn collect_in(node: &UiNode, target: &[char], excluded: &[char], path: &mut Vec<usize>, output: &mut Vec<Vec<usize>>)
    ensures
        final(path)@ == old(path)@,
        paths_view(final(output)@) == paths_view(old(output)@) + parent_paths(*node, target@, excluded@, old(path)@),
    decreases node,
{
    if same_id(node, excluded) {
        assert(paths_view(output@) =~= paths_view(old(output)@) + Seq::<Seq<usize>>::empty());
        return;
    }
    let ghost p0 = path@;
    let ghost o0 = paths_view(output@);
    if has_child_id(node, target) {
        output.push(path.clone());
        assert(paths_view(output@) =~= o0 + seq![p0]);
    } else {
        assert(paths_view(output@) =~= o0 + Seq::<Seq<usize>>::empty());
    }
    let ghost head = paths_view(output@);
    let mut i: usize = 0;
    assert(node.child@.skip(0) =~= node.child@);
    while i < node.child.len()
        invariant
            i <= node.child@.len(),
            path@ == p0,
            head + parent_paths_forest(node.child@, target@, excluded@, p0, 0) == paths_view(output@)
                + parent_paths_forest(node.child@.skip(i as int), target@, excluded@, p0, i as int),
        decreases node.child@.len() - i,
    {
        assert(node.child@.skip(i as int)[0] == node.child@[i as int]);
        assert(node.child@.skip(i as int).drop_first() =~= node.child@.skip(i + 1));
        let ghost before = paths_view(output@);
        let ghost mine = parent_paths(node.child@[i as int], target@, excluded@, p0.push(i));
        let ghost rest = parent_paths_forest(node.child@.skip(i + 1), target@, excluded@, p0, i + 1);
        path.push(i);
        collect_in(&node.child[i], target, excluded, path, output);
        path.pop();
        assert(path@ =~= p0);
        assert(paths_view(output@) == before + mine);
        assert(before + (mine + rest) =~= (before + mine) + rest);
        i = i + 1;
    }
    assert(node.child@.skip(i as int) =~= Seq::<UiNode>::empty());
    assert(paths_view(output@) + Seq::<Seq<usize>>::empty() =~= paths_view(output@));
    assert(paths_view(output@) =~= paths_view(old(output)@) + parent_paths(*node, target@, excluded@, p0));
}

/// Appends to `output` the index paths of the nodes with a child whose id is
/// `target`, each prefixed by `path`, not looking inside the subtree whose
/// id is `excluded`; `path` is left as it was.
pub fn collect_parent_index_paths_by_id_excluding(
    node: &UiNode,
    target: &str,
    excluded_subtree_id: &str,
    path: &mut Vec<usize>,
    output: &mut Vec<Vec<usize>>,
)
    ensures
        final(path)@ == old(path)@,
        paths_view(final(output)@) == paths_view(old(output)@) + parent_paths(
            *node,
            target@,
            excluded_subtree_id@,
            old(path)@,
        ),
{
    let t = chars_of(target);
    let e = chars_of(excluded_subtree_id);
    collect_in(node, t.as_slice(), e.as_slice(), path, output);
}

// ---------------------------------------------------------------------------
// The game's own compare popup
// ---------------------------------------------------------------------------

pub open spec fn compare_popup_id() -> Seq<char> {
    "compare_popup"@
}

pub open spec fn modal_layer_id() -> Seq<char> {
    "pts_trade_modal_layer"@
}

/// The compare popup under the node at `path`, if there is one.
pub open spec fn compare_popup_at(root: UiNode, path: Seq<usize>) -> Option<UiNode> {
    match at_path(root, path) {
        Some(parent) => child_with_id(parent.child@, compare_popup_id()),
        None => None,
    }
}

/// The node at `path` holds a compare popup with its `fade` and `popup` parts.
pub open spec fn valid_compare_parent(root: UiNode, path: Seq<usize>) -> bool {
    match compare_popup_at(root, path) {
        Some(popup) => child_with_id(popup.child@, "fade"@) is Some && child_with_id(popup.child@, "popup"@) is Some,
        None => false,
    }
}

/// The paths of `ps` that hold a complete compare popup, in order.
pub open spec fn valid_compare_paths(root: UiNode, ps: Seq<Seq<usize>>) -> Seq<Seq<usize>>
    decreases ps.len(),
{
    if ps.len() == 0 {
        Seq::empty()
    } else if valid_compare_parent(root, ps.last()) {
        valid_compare_paths(root, ps.drop_last()).push(ps.last())
    } else {
        valid_compare_paths(root, ps.drop_last())
    }
}

fn compare_popup_under<'a>(root: &'a UiNode, path: &[usize]) -> (r: Option<&'a UiNode>)
    ensures
        match compare_popup_at(*root, path@) {
            Some(n) => r matches Some(x) && *x == n,
            None => r is None,
        },
{
    match node_by_index_path(root, path) {
        Some(parent) => direct_child(parent, "compare_popup"),
        None => None,
    }
}

fn is_valid_compare_parent(root: &UiNode, path: &[usize]) -> (b: bool)
    ensures
        b == valid_compare_parent(*root, path@),
{
    match compare_popup_under(root, path) {
        Some(popup) => direct_child(popup, "fade").is_some() && direct_child(popup, "popup").is_some(),
        None => false,
    }
}

/// The paths, outside the trade window, of the nodes that hold a complete
/// compare popup of the game.
pub fn structurally_valid_compare_parent_index_paths(root: &UiNode) -> (r: Vec<Vec<usize>>)
    ensures
        paths_view(r@) == valid_compare_paths(*root, parent_paths(*root, compare_popup_id(), modal_layer_id(), Seq::empty())),
{
    let mut all: Vec<Vec<usize>> = Vec::new();
    let mut path: Vec<usize> = Vec::new();
    collect_parent_index_paths_by_id_excluding(root, "compare_popup", "pts_trade_modal_layer", &mut path, &mut all);
    assert(paths_view(all@) =~= parent_paths(*root, compare_popup_id(), modal_layer_id(), Seq::empty()));
    let ghost ps = paths_view(all@);
    let mut out: Vec<Vec<usize>> = Vec::new();
    let mut i: usize = 0;
    while i < all.len()
        invariant
            i <= all@.len(),
            ps == paths_view(all@),
            paths_view(out@) == valid_compare_paths(*root, ps.take(i as int)),
        decreases all@.len() - i,
    {
        assert(ps.take(i + 1).drop_last() =~= ps.take(i as int));
        assert(ps.take(i + 1).last() == all@[i as int]@);
        if is_valid_compare_parent(root, all[i].as_slice()) {
            out.push(all[i].clone());
            assert(paths_view(out@) =~= valid_compare_paths(*root, ps.take(i as int)).push(ps[i as int]));
        }
        i = i + 1;
    }
    assert(ps.take(i as int) =~= ps);
    out
}

/// Every node from `node` down along `path` is visible and enabled.
pub open spec fn usable_along(node: UiNode, path: Seq<usize>) -> bool
    decreases path.len(),
{
    &&& node.visible
    &&& !node.disabled
    &&& path.len() > 0 ==> path[0] < node.child@.len() && usable_along(node.child@[path[0] as int], path.drop_first())
}

fn is_usable_along(root: &UiNode, path: &[usize]) -> (b: bool)
    ensures
        b == usable_along(*root, path@),
{
    let mut cur: &UiNode = root;
    let mut k: usize = 0;
    assert(path@.skip(0) =~= path@);
    while k < path.len()
        invariant
            k <= path@.len(),
            usable_along(*root, path@) == usable_along(*cur, path@.skip(k as int)),
        decreases path@.len() - k,
    {
        assert(path@.skip(k as int)[0] == path@[k as int]);
        assert(path@.skip(k as int).drop_first() =~= path@.skip(k + 1));
        if !cur.visible || cur.disabled {
            return false;
        }
        let i = path[k];
        if i >= cur.child.len() {
            return false;
        }
        cur = &cur.child[i];
        k = k + 1;
    }
    assert(path@.skip(k as int) =~= Seq::<usize>::empty());
    cur.visible && !cur.disabled
}

/// The paths of `ps` along which every node is visible and enabled, in order.
pub open spec fn usable_paths(root: UiNode, ps: Seq<Seq<usize>>) -> Seq<Seq<usize>>
    decreases ps.len(),
{
    if ps.len() == 0 {
        Seq::empty()
    } else if usable_along(root, ps.last()) {
        usable_paths(root, ps.drop_last()).push(ps.last())
    } else {
        usable_paths(root, ps.drop_last())
    }
}

/// The complete compare popups of the game whose parents can be reached
/// through visible, enabled nodes.
pub open spec fn active_compare_paths(root: UiNode) -> Seq<Seq<usize>> {
    usable_paths(root, valid_compare_paths(root, parent_paths(root, compare_popup_id(), modal_layer_id(), Seq::empty())))
}

pub fn active_compare_parent_index_paths(root: &UiNode) -> (r: Vec<Vec<usize>>)
    ensures
        paths_view(r@) == active_compare_paths(*root),
{
    let all = structurally_valid_compare_parent_index_paths(root);
    let ghost ps = paths_view(all@);
    let mut out: Vec<Vec<usize>> = Vec::new();
    let mut i: usize = 0;
    while i < all.len()
        invariant
            i <= all@.len(),
            ps == paths_view(all@),
            paths_view(out@) == usable_paths(*root, ps.take(i as int)),
        decreases all@.len() - i,
    {
        assert(ps.take(i + 1).drop_last() =~= ps.take(i as int));
        assert(ps.take(i + 1).last() == all@[i as int]@);
        if is_usable_along(root, all[i].as_slice()) {
            out.push(all[i].clone());
            assert(paths_view(out@) =~= usable_paths(*root, ps.take(i as int)).push(ps[i as int]));
        }
        i = i + 1;
    }
    assert(ps.take(i as int) =~= ps);
    out
}

/// The game's compare popup is closed as it should be: exactly one is
/// active, and it is hidden and enabled with its fade visible and enabled.
pub open spec fn compare_closed(root: UiNode) -> bool {
    let ps = active_compare_paths(root);
    ps.len() == 1 && match compare_popup_at(root, ps[0]) {
        Some(popup) => match child_with_id(popup.child@, "fade"@) {
            Some(fade) => !popup.visible && !popup.disabled && fade.visible && !fade.disabled,
            None => false,
        },
        None => false,
    }
}

pub fn canonical_native_compare_closed(root: &UiNode) -> (b: bool)
    ensures
        b == compare_closed(*root),
{
    let paths = active_compare_parent_index_paths(root);
    if paths.len() != 1 {
        return false;
    }
    assert(paths@[0]@ == active_compare_paths(*root)[0]);
    match compare_popup_under(root, paths[0].as_slice()) {
        Some(popup) => match direct_child(popup, "fade") {
            Some(fade) => !popup.visible && !popup.disabled && fade.visible && !fade.disabled,
            None => false,
        },
        None => false,
    }
}

/// The active paths whose compare popup is itself visible and enabled.
pub open spec fn ready_paths(root: UiNode, ps: Seq<Seq<usize>>) -> Seq<Seq<usize>>
    decreases ps.len(),
{
    if ps.len() == 0 {
        Seq::empty()
    } else if compare_popup_at(root, ps.last()) matches Some(p) && p.visible && !p.disabled {
        ready_paths(root, ps.drop_last()).push(ps.last())
    } else {
        ready_paths(root, ps.drop_last())
    }
}

/// The path of the one open compare popup of the game; none when there is
/// no such popup or more than one.
pub fn visible_ready_compare_parent_index_path(root: &UiNode) -> (r: Option<Vec<usize>>)
    ensures
        ready_paths(*root, active_compare_paths(*root)).len() == 1 ==> (r matches Some(p) && p@ == ready_paths(
            *root,
            active_compare_paths(*root),
        )[0]),
        ready_paths(*root, active_compare_paths(*root)).len() != 1 ==> r is None,
{
    let all = active_compare_parent_index_paths(root);
    let ghost ps = paths_view(all@);
    let mut ready: Vec<Vec<usize>> = Vec::new();
    let mut i: usize = 0;
    while i < all.len()
        invariant
            i <= all@.len(),
            ps == paths_view(all@),
            paths_view(ready@) == ready_paths(*root, ps.take(i as int)),
        decreases all@.len() - i,
    {
        assert(ps.take(i + 1).drop_last() =~= ps.take(i as int));
        assert(ps.take(i + 1).last() == all@[i as int]@);
        match compare_popup_under(root, all[i].as_slice()) {
            Some(popup) => {
                if popup.visible && !popup.disabled {
                    ready.push(all[i].clone());
                    assert(paths_view(ready@) =~= ready_paths(*root, ps.take(i as int)).push(ps[i as int]));
                }
            },
            None => {},
        }
        i = i + 1;
    }
    assert(ps.take(i as int) =~= ps);
    if ready.len() == 1 {
        assert(paths_view(ready@)[0] == ready@[0]@);
        ready.pop()
    } else {
        None
    }
}


// ---------------------------------------------------------------------------
// Ids carried by nodes
// ---------------------------------------------------------------------------

/// The player id of a `view_detail_<id>` node (the rest of the id read as a
/// `usize`).
pub open spec fn view_detail_id(id: Seq<char>) -> Option<nat> {
    if starts_with(id, "view_detail_"@) {
        parse_unsigned(id.skip(12), usize::MAX as nat)
    } else {
        None
    }
}

/// The first player id, depth first, that a `view_detail_<id>` node carries.
pub open spec fn view_detail_in(node: UiNode) -> Option<nat>
    decreases node, 1int,
{
    if view_detail_id(node.id@) is Some {
        view_detail_id(node.id@)
    } else {
        view_detail_in_forest(node.child@)
    }
}

pub open spec fn view_detail_in_forest(nodes: Seq<UiNode>) -> Option<nat>
    decreases nodes, 0int,
{
    if nodes.len() == 0 {
        None
    } else if view_detail_in(nodes[0]) is Some {
        view_detail_in(nodes[0])
    } else {
        view_detail_in_forest(nodes.drop_first())
    }
}

fn view_detail_id_exec(id: &[char], prefix: &[char]) -> (r: Option<usize>)
    requires
        prefix@ == "view_detail_"@,
    ensures
        match view_detail_id(id@) {
            Some(v) => r == Some(v as usize),
            None => r is None,
        },
{
    proof {
        reveal_strlit("view_detail_");
    }
    if !starts_with_exec(id, prefix) {
        return None;
    }
    let rest = copy_range(id, 12, id.len());
    assert(rest@ =~= id@.skip(12));
    match parse_decimal(rest.as_slice(), usize::MAX as u64) {
        Some(v) => Some(v as usize),
        None => None,
    }
}

fn view_detail_search(node: &UiNode, prefix: &[char]) -> (r: Option<usize>)
    requires
        prefix@ == "view_detail_"@,
    ensures
        match view_detail_in(*node) {
            Some(v) => r == Some(v as usize),
            None => r is None,
        },
    decreases node,
{
    let own = chars_of(node.id.as_str());
    match view_detail_id_exec(own.as_slice(), prefix) {
        Some(v) => return Some(v),
        None => {},
    }
    let mut i: usize = 0;
    assert(node.child@.skip(0) =~= node.child@);
    while i < node.child.len()
        invariant
            i <= node.child@.len(),
            prefix@ == "view_detail_"@,
            view_detail_in(*node) == view_detail_in_forest(node.child@.skip(i as int)),
        decreases node.child@.len() - i,
    {
        assert(node.child@.skip(i as int)[0] == node.child@[i as int]);
        assert(node.child@.skip(i as int).drop_first() =~= node.child@.skip(i + 1));
        match view_detail_search(&node.child[i], prefix) {
            Some(v) => return Some(v),
            None => {},
        }
        i = i + 1;
    }
    assert(node.child@.skip(i as int) =~= Seq::<UiNode>::empty());
    None
}

/// The first player id, depth first, that a `view_detail_<id>` node of the
/// tree carries.
pub fn recursive_view_detail_athlete_id(node: &UiNode) -> (r: Option<usize>)
    ensures
        match view_detail_in(*node) {
            Some(v) => r == Some(v as usize),
            None => r is None,
        },
{
    let prefix = chars_of("view_detail_");
    view_detail_search(node, prefix.as_slice())
}

/// Whether some node of the tree carries a player id.
pub fn node_has_descendant_view_detail(node: &UiNode) -> (b: bool)
    ensures
        b == view_detail_in(*node) is Some,
{
    recursive_view_detail_athlete_id(node).is_some()
}

/// The first of `nodes` whose own id is `view_detail_<id>`, by that id.
pub open spec fn first_view_detail_child(nodes: Seq<UiNode>) -> Option<nat>
    decreases nodes.len(),
{
    if nodes.len() == 0 {
        None
    } else if view_detail_id(nodes[0].id@) is Some {
        view_detail_id(nodes[0].id@)
    } else {
        first_view_detail_child(nodes.drop_first())
    }
}

/// The path, inside a transfer offer, to the node holding the target's name.
pub open spec fn offer_name_path() -> Seq<Seq<char>> {
    seq!["data"@, "row1"@, "info"@, "header"@, "name"@]
}

/// The player an offer screen is about: the id carried by the first child
/// of `data.row1.info.header.name` named `view_detail_<id>`.
pub open spec fn offer_target_spec(offer: UiNode) -> Option<nat> {
    match along_ids(offer, offer_name_path()) {
        Some(name) => first_view_detail_child(name.child@),
        None => None,
    }
}

pub fn target_id_from_offer(offer: &UiNode) -> (r: Option<usize>)
    ensures
        match offer_target_spec(*offer) {
            Some(v) => r == Some(v as usize),
            None => r is None,
        },
{
    proof {
        reveal_with_fuel(along_ids, 6);
        let p = offer_name_path();
        assert(p.drop_first() =~= seq!["row1"@, "info"@, "header"@, "name"@]);
        assert(p.drop_first().drop_first() =~= seq!["info"@, "header"@, "name"@]);
        assert(p.drop_first().drop_first().drop_first() =~= seq!["header"@, "name"@]);
        assert(p.drop_first().drop_first().drop_first().drop_first() =~= seq!["name"@]);
        assert(seq!["name"@].drop_first() =~= Seq::<Seq<char>>::empty());
    }
    let data = match direct_child(offer, "data") {
        Some(n) => n,
        None => return None,
    };
    let row1 = match direct_child(data, "row1") {
        Some(n) => n,
        None => return None,
    };
    let info = match direct_child(row1, "info") {
        Some(n) => n,
        None => return None,
    };
    let header = match direct_child(info, "header") {
        Some(n) => n,
        None => return None,
    };
    let name = match direct_child(header, "name") {
        Some(n) => n,
        None => return None,
    };
    assert(along_ids(*offer, offer_name_path()) == Some(*name));
    let prefix = chars_of("view_detail_");
    let mut i: usize = 0;
    assert(name.child@.skip(0) =~= name.child@);
    while i < name.child.len()
        invariant
            i <= name.child@.len(),
            prefix@ == "view_detail_"@,
            offer_target_spec(*offer) == first_view_detail_child(name.child@.skip(i as int)),
        decreases name.child@.len() - i,
    {
        assert(name.child@.skip(i as int)[0] == name.child@[i as int]);
        assert(name.child@.skip(i as int).drop_first() =~= name.child@.skip(i + 1));
        let own = chars_of(name.child[i].id.as_str());
        assert(first_view_detail_child(name.child@.skip(i as int)) == (if view_detail_id(
            name.child@[i as int].id@,
        ) is Some {
            view_detail_id(name.child@[i as int].id@)
        } else {
            first_view_detail_child(name.child@.skip(i + 1))
        }));
        match view_detail_id_exec(own.as_slice(), prefix.as_slice()) {
            Some(v) => return Some(v),
            None => {},
        }
        i = i + 1;
    }
    assert(name.child@.skip(i as int) =~= Seq::<UiNode>::empty());
    None
}

/// The ids, depth first, of the nodes whose id starts with `transfer` or
/// `negotiation`.
pub open spec fn transfer_like_ids(node: UiNode) -> Seq<Seq<char>>
    decreases node, 1int,
{
    (if starts_with(node.id@, "transfer"@) || starts_with(node.id@, "negotiation"@) {
        seq![node.id@]
    } else {
        Seq::empty()
    }) + transfer_like_ids_forest(node.child@)
}

pub open spec fn transfer_like_ids_forest(nodes: Seq<UiNode>) -> Seq<Seq<char>>
    decreases nodes, 0int,
{
    if nodes.len() == 0 {
        Seq::empty()
    } else {
        transfer_like_ids(nodes[0]) + transfer_like_ids_forest(nodes.drop_first())
    }
}

fn transfer_like_in(node: &UiNode, transfer: &[char], negotiation: &[char], out: &mut Vec<String>)
    requires
        transfer@ == "transfer"@,
        negotiation@ == "negotiation"@,
    ensures
        texts(final(out)@) == texts(old(out)@) + transfer_like_ids(*node),
    decreases node,
{
    let own = chars_of(node.id.as_str());
    let ghost o0 = texts(out@);
    if starts_with_exec(own.as_slice(), transfer) || starts_with_exec(own.as_slice(), negotiation) {
        out.push(node.id.clone());
        assert(texts(out@) =~= o0 + seq![node.id@]);
    } else {
        assert(texts(out@) =~= o0 + Seq::<Seq<char>>::empty());
    }
    let ghost head = texts(out@);
    let mut i: usize = 0;
    assert(node.child@.skip(0) =~= node.child@);
    while i < node.child.len()
        invariant
            i <= node.child@.len(),
            transfer@ == "transfer"@,
            negotiation@ == "negotiation"@,
            head + transfer_like_ids_forest(node.child@) == texts(out@) + transfer_like_ids_forest(
                node.child@.skip(i as int),
            ),
        decreases node.child@.len() - i,
    {
        assert(node.child@.skip(i as int)[0] == node.child@[i as int]);
        assert(node.child@.skip(i as int).drop_first() =~= node.child@.skip(i + 1));
        let ghost before = texts(out@);
        let ghost mine = transfer_like_ids(node.child@[i as int]);
        let ghost rest = transfer_like_ids_forest(node.child@.skip(i + 1));
        transfer_like_in(&node.child[i], transfer, negotiation, out);
        assert(before + (mine + rest) =~= (before + mine) + rest);
        i = i + 1;
    }
    assert(node.child@.skip(i as int) =~= Seq::<UiNode>::empty());
    assert(texts(out@) =~= texts(old(out)@) + transfer_like_ids(*node));
}

/// Appends the ids, depth first, of the nodes whose id starts with
/// `transfer` or `negotiation`.
pub fn collect_transfer_like_ids(node: &UiNode, out: &mut Vec<String>)
    ensures
        texts(final(out)@) == texts(old(out)@) + transfer_like_ids(*node),
{
    let transfer = chars_of("transfer");
    let negotiation = chars_of("negotiation");
    transfer_like_in(node, transfer.as_slice(), negotiation.as_slice(), out);
}

/// The ids of the rows of the contract list: the children of
/// `contract_all` / `list` / `contents` for the first `contract_all` node,
/// depth first (nothing below it is looked at).
pub open spec fn contract_rows(node: UiNode) -> Seq<Seq<char>>
    decreases node, 1int,
{
    if node.id@ == "contract_all"@ {
        match along_ids(node, seq!["list"@, "contents"@]) {
            Some(contents) => contents.child@.map_values(|n: UiNode| n.id@),
            None => Seq::empty(),
        }
    } else {
        contract_rows_forest(node.child@)
    }
}

pub open spec fn contract_rows_forest(nodes: Seq<UiNode>) -> Seq<Seq<char>>
    decreases nodes, 0int,
{
    if nodes.len() == 0 {
        Seq::empty()
    } else {
        contract_rows(nodes[0]) + contract_rows_forest(nodes.drop_first())
    }
}

fn push_child_ids(node: &UiNode, out: &mut Vec<String>)
    ensures
        texts(final(out)@) == texts(old(out)@) + node.child@.map_values(|n: UiNode| n.id@),
{
    let ghost o0 = texts(out@);
    let mut i: usize = 0;
    while i < node.child.len()
        invariant
            i <= node.child@.len(),
            texts(out@) == o0 + node.child@.take(i as int).map_values(|n: UiNode| n.id@),
        decreases node.child@.len() - i,
    {
        let ghost prev = texts(out@);
        let id = node.child[i].id.clone();
        assert(id@ == node.child@[i as int].id@);
        out.push(id);
        assert(texts(out@) =~= prev.push(node.child@[i as int].id@));
        assert(node.child@.take(i + 1).map_values(|n: UiNode| n.id@) =~= node.child@.take(i as int).map_values(
            |n: UiNode| n.id@,
        ).push(node.child@[i as int].id@));
        assert(texts(out@) =~= o0 + node.child@.take(i + 1).map_values(|n: UiNode| n.id@));
        i = i + 1;
    }
    assert(node.child@.take(i as int) =~= node.child@);
}

fn contract_rows_in(node: &UiNode, out: &mut Vec<String>)
    ensures
        texts(final(out)@) == texts(old(out)@) + contract_rows(*node),
    decreases node,
{
    let own = chars_of(node.id.as_str());
    if chars_eq(own.as_slice(), chars_of("contract_all").as_slice()) {
        let ids = ["list", "contents"];
        assert(id_texts(ids@) =~= seq!["list"@, "contents"@]);
        match direct_path(node, &ids) {
            Some(contents) => push_child_ids(contents, out),
            None => {
                assert(texts(out@) =~= texts(old(out)@) + Seq::<Seq<char>>::empty());
            },
        }
        return;
    }
    let ghost o0 = texts(out@);
    let mut i: usize = 0;
    assert(node.child@.skip(0) =~= node.child@);
    assert(o0 + contract_rows_forest(node.child@) =~= texts(out@) + contract_rows_forest(node.child@.skip(0)));
    while i < node.child.len()
        invariant
            i <= node.child@.len(),
            o0 + contract_rows_forest(node.child@) == texts(out@) + contract_rows_forest(node.child@.skip(i as int)),
        decreases node.child@.len() - i,
    {
        assert(node.child@.skip(i as int)[0] == node.child@[i as int]);
        assert(node.child@.skip(i as int).drop_first() =~= node.child@.skip(i + 1));
        let ghost before = texts(out@);
        let ghost mine = contract_rows(node.child@[i as int]);
        let ghost rest = contract_rows_forest(node.child@.skip(i + 1));
        contract_rows_in(&node.child[i], out);
        assert(before + (mine + rest) =~= (before + mine) + rest);
        i = i + 1;
    }
    assert(node.child@.skip(i as int) =~= Seq::<UiNode>::empty());
    assert(texts(out@) =~= texts(old(out)@) + contract_rows(*node));
}

/// Appends the ids of the rows of the first contract list of the tree.
pub fn contract_all_row_ids(node: &UiNode, out: &mut Vec<String>)
    ensures
        texts(final(out)@) == texts(old(out)@) + contract_rows(*node),
{
    contract_rows_in(node, out);
}

// ---------------------------------------------------------------------------
// Shapes
// ---------------------------------------------------------------------------

/// The columns a contract row has.
pub open spec fn contract_slot_ids() -> Seq<Seq<char>> {
    seq![
        "position"@,
        "name"@,
        "team"@,
        "contract"@,
        "salary"@,
        "transfer_fee"@,
        "squad_status"@,
        "contract_state"@,
        "contract_limit"@,
        "action"@,
    ]
}

/// A node shaped as a contract row: it has a child for every column.
pub open spec fn slot_shaped(node: UiNode) -> bool {
    forall|i: int| 0 <= i < contract_slot_ids().len() ==> child_with_id(node.child@, #[trigger] contract_slot_ids()[i]) is Some
}

pub fn contract_slot_shape(node: &UiNode) -> (b: bool)
    ensures
        b == slot_shaped(*node),
{
    let ids = [
        "position",
        "name",
        "team",
        "contract",
        "salary",
        "transfer_fee",
        "squad_status",
        "contract_state",
        "contract_limit",
        "action",
    ];
    assert(id_texts(ids@) =~= contract_slot_ids());
    let mut k: usize = 0;
    while k < ids.len()
        invariant
            k <= ids@.len(),
            id_texts(ids@) == contract_slot_ids(),
            forall|i: int| 0 <= i < k ==> child_with_id(node.child@, #[trigger] contract_slot_ids()[i]) is Some,
        decreases ids@.len() - k,
    {
        assert(contract_slot_ids()[k as int] == ids@[k as int]@);
        if direct_child(node, ids[k]).is_none() {
            return false;
        }
        k = k + 1;
    }
    true
}

/// The game's offer surface as the trade screen expects it: its id, the
/// name header, the delegate and (empty) offer buttons, the other-view
/// button and the entry button, and the hidden templates of the window.
pub open spec fn offer_shaped(node: UiNode) -> bool {
    &&& node.id@ == "offer"@
    &&& along_ids(node, seq!["data"@, "row1"@, "info"@, "header"@, "name"@]) is Some
    &&& along_ids(node, seq!["data"@, "row2"@, "delegate"@]) is Some
    &&& along_ids(node, seq!["data"@, "row2"@, "offer"@]) matches Some(submit) && submit.child@.len() == 0
    &&& along_ids(node, seq!["data"@, "row2"@, "view_other"@]) is Some
    &&& along_ids(node, seq!["data"@, "row2"@, "pts_trade_entry"@]) is Some
    &&& child_with_id(node.child@, "pts_trade_modal_layer_template"@) matches Some(t) && !t.visible
    &&& child_with_id(node.child@, "pts_trade_cash_template"@) matches Some(c) && !c.visible
}

pub fn node_has_trade_offer_shape(node: &UiNode) -> (b: bool)
    ensures
        b == offer_shaped(*node),
{
    let name_path = ["data", "row1", "info", "header", "name"];
    let delegate_path = ["data", "row2", "delegate"];
    let offer_path = ["data", "row2", "offer"];
    let other_path = ["data", "row2", "view_other"];
    let entry_path = ["data", "row2", "pts_trade_entry"];
    assert(id_texts(name_path@) =~= seq!["data"@, "row1"@, "info"@, "header"@, "name"@]);
    assert(id_texts(delegate_path@) =~= seq!["data"@, "row2"@, "delegate"@]);
    assert(id_texts(offer_path@) =~= seq!["data"@, "row2"@, "offer"@]);
    assert(id_texts(other_path@) =~= seq!["data"@, "row2"@, "view_other"@]);
    assert(id_texts(entry_path@) =~= seq!["data"@, "row2"@, "pts_trade_entry"@]);
    let own = chars_of(node.id.as_str());
    if !chars_eq(own.as_slice(), chars_of("offer").as_slice()) {
        return false;
    }
    if direct_path(node, &name_path).is_none() || direct_path(node, &delegate_path).is_none() {
        return false;
    }
    match direct_path(node, &offer_path) {
        Some(submit) => {
            if submit.child.len() != 0 {
                return false;
            }
        },
        None => return false,
    }
    if direct_path(node, &other_path).is_none() || direct_path(node, &entry_path).is_none() {
        return false;
    }
    let template_hidden = match direct_child(node, "pts_trade_modal_layer_template") {
        Some(t) => !t.visible,
        None => false,
    };
    let cash_hidden = match direct_child(node, "pts_trade_cash_template") {
        Some(c) => !c.visible,
        None => false,
    };
    template_hidden && cash_hidden
}

/// The remembered offer surface, if it is still there, usable and shaped as
/// expected.
pub open spec fn active_offer_spec(root: UiNode, path: Option<Seq<usize>>) -> Option<UiNode> {
    match path {
        Some(p) => match at_path(root, p) {
            Some(n) => if n.visible && !n.disabled && offer_shaped(n) { Some(n) } else { None },
            None => None,
        },
        None => None,
    }
}

pub fn active_offer<'a>(root: &'a UiNode, path: Option<&[usize]>) -> (r: Option<&'a UiNode>)
    ensures
        match active_offer_spec(
            *root,
            match path {
                Some(p) => Some(p@),
                None => None,
            },
        ) {
            Some(n) => r matches Some(x) && *x == n,
            None => r is None,
        },
{
    let p = match path {
        Some(p) => p,
        None => return None,
    };
    match node_by_index_path(root, p) {
        Some(n) => {
            if n.visible && !n.disabled && node_has_trade_offer_shape(n) {
                Some(n)
            } else {
                None
            }
        },
        None => None,
    }
}

/// The trade window inside the offer surface is whole: its backdrop,
/// compare panel and cash panel are all visible.
pub open spec fn modal_canonical(offer: UiNode) -> bool {
    match child_with_id(offer.child@, "pts_trade_modal_layer"@) {
        Some(modal) => match (
            child_with_id(modal.child@, "pts_trade_modal_backdrop"@),
            child_with_id(modal.child@, "pts_trade_custom_compare"@),
            child_with_id(modal.child@, "pts_trade_cash_panel"@),
        ) {
            (Some(b), Some(c), Some(k)) => b.visible && c.visible && k.visible,
            _ => false,
        },
        None => false,
    }
}

pub fn modal_hierarchy_is_canonical(root: &UiNode, offer_path: Option<&[usize]>) -> (b: bool)
    ensures
        b == (active_offer_spec(
            *root,
            match offer_path {
                Some(p) => Some(p@),
                None => None,
            },
        ) matches Some(offer) && modal_canonical(offer)),
{
    let offer = match active_offer(root, offer_path) {
        Some(o) => o,
        None => return false,
    };
    let modal = match direct_child(offer, "pts_trade_modal_layer") {
        Some(m) => m,
        None => return false,
    };
    let backdrop = match direct_child(modal, "pts_trade_modal_backdrop") {
        Some(b) => b,
        None => return false,
    };
    let compare = match direct_child(modal, "pts_trade_custom_compare") {
        Some(c) => c,
        None => return false,
    };
    let cash = match direct_child(modal, "pts_trade_cash_panel") {
        Some(k) => k,
        None => return false,
    };
    backdrop.visible && compare.visible && cash.visible
}


// ---------------------------------------------------------------------------
// Pending-contract rows to take out
// ---------------------------------------------------------------------------

/// A row that the screen added for a pending contract (by its id or the
/// prefix of its ids).
pub open spec fn is_pending_row(id: Seq<char>) -> bool {
    id == pending_row_id() || starts_with(id, "pts_trade_pending_contract_slot_test79_"@)
}

/// The index paths, depth first, of the pending-contract rows below `node`,
/// each prefixed by `prefix`; nothing inside such a row is looked at.
pub open spec fn pending_row_paths(node: UiNode, prefix: Seq<usize>) -> Seq<Seq<usize>>
    decreases node, 1int,
{
    pending_row_paths_forest(node.child@, prefix, 0)
}

pub open spec fn pending_row_paths_forest(nodes: Seq<UiNode>, prefix: Seq<usize>, from: int) -> Seq<Seq<usize>>
    decreases nodes, 0int,
{
    if nodes.len() == 0 {
        Seq::empty()
    } else {
        (if is_pending_row(nodes[0].id@) {
            seq![prefix.push(from as usize)]
        } else {
            pending_row_paths(nodes[0], prefix.push(from as usize))
        }) + pending_row_paths_forest(nodes.drop_first(), prefix, from + 1)
    }
}

fn pending_rows_collect(
    node: &UiNode,
    row: &[char],
    row_prefix: &[char],
    path: &mut Vec<usize>,
    output: &mut Vec<Vec<usize>>,
)
    requires
        row@ == pending_row_id(),
        row_prefix@ == "pts_trade_pending_contract_slot_test79_"@,
    ensures
        final(path)@ == old(path)@,
        paths_view(final(output)@) == paths_view(old(output)@) + pending_row_paths(*node, old(path)@),
    decreases node,
{
    let ghost p0 = path@;
    let ghost o0 = paths_view(output@);
    let mut i: usize = 0;
    assert(node.child@.skip(0) =~= node.child@);
    assert(o0 + pending_row_paths_forest(node.child@, p0, 0) =~= paths_view(output@)
        + pending_row_paths_forest(node.child@.skip(0), p0, 0));
    while i < node.child.len()
        invariant
            i <= node.child@.len(),
            path@ == p0,
            row@ == pending_row_id(),
            row_prefix@ == "pts_trade_pending_contract_slot_test79_"@,
            o0 + pending_row_paths_forest(node.child@, p0, 0) == paths_view(output@) + pending_row_paths_forest(
                node.child@.skip(i as int),
                p0,
                i as int,
            ),
        decreases node.child@.len() - i,
    {
        assert(node.child@.skip(i as int)[0] == node.child@[i as int]);
        assert(node.child@.skip(i as int).drop_first() =~= node.child@.skip(i + 1));
        let c = &node.child[i];
        let ghost before = paths_view(output@);
        let ghost rest = pending_row_paths_forest(node.child@.skip(i + 1), p0, i + 1);
        let own = chars_of(c.id.as_str());
        path.push(i);
        if chars_eq(own.as_slice(), row) || starts_with_exec(own.as_slice(), row_prefix) {
            output.push(path.clone());
            assert(paths_view(output@) =~= before + seq![p0.push(i)]);
            assert(before + (seq![p0.push(i)] + rest) =~= (before + seq![p0.push(i)]) + rest);
        } else {
            let ghost mine = pending_row_paths(node.child@[i as int], p0.push(i));
            pending_rows_collect(c, row, row_prefix, path, output);
            assert(paths_view(output@) == before + mine);
            assert(before + (mine + rest) =~= (before + mine) + rest);
        }
        path.pop();
        assert(path@ =~= p0);
        i = i + 1;
    }
    assert(node.child@.skip(i as int) =~= Seq::<UiNode>::empty());
    assert(paths_view(output@) + Seq::<Seq<usize>>::empty() =~= paths_view(output@));
}

/// The index paths of the pending-contract rows to take out of the tree, in
/// depth-first order (taking them out from the last one back keeps the
/// earlier paths valid); their number is the number of rows removed.
pub fn pending_contract_projection_row_paths(node: &UiNode) -> (r: Vec<Vec<usize>>)
    ensures
        paths_view(r@) == pending_row_paths(*node, Seq::empty()),
{
    let row = chars_of("pts_trade_pending_contract_slot_test79_active");
    let row_prefix = chars_of("pts_trade_pending_contract_slot_test79_");
    let mut path: Vec<usize> = Vec::new();
    let mut out: Vec<Vec<usize>> = Vec::new();
    pending_rows_collect(node, row.as_slice(), row_prefix.as_slice(), &mut path, &mut out);
    assert(paths_view(out@) =~= pending_row_paths(*node, Seq::empty()));
    out
}


// ---------------------------------------------------------------------------
// Where a usable node is
// ---------------------------------------------------------------------------

/// The index path of the node that `find_effectively_visible_node_by_id`
/// finds.
pub open spec fn usable_path(node: UiNode, target: Seq<char>) -> Option<Seq<usize>>
    decreases node, 1int,
{
    if node.id@ == target && node.visible && !node.disabled {
        Some(Seq::empty())
    } else if !node.visible || node.disabled {
        None
    } else {
        usable_path_forest(node.child@, target, 0)
    }
}

pub open spec fn usable_path_forest(nodes: Seq<UiNode>, target: Seq<char>, from: int) -> Option<Seq<usize>>
    decreases nodes, 0int,
{
    if nodes.len() == 0 {
        None
    } else {
        match usable_path(nodes[0], target) {
            Some(p) => Some(seq![from as usize] + p),
            None => usable_path_forest(nodes.drop_first(), target, from + 1),
        }
    }
}

fn usable_path_in(node: &UiNode, target: &[char]) -> (r: Option<Vec<usize>>)
    ensures
        match usable_path(*node, target@) {
            Some(p) => r matches Some(v) && v@ == p,
            None => r is None,
        },
    decreases node,
{
    if same_id(node, target) && node.visible && !node.disabled {
        return Some(Vec::new());
    }
    if !node.visible || node.disabled {
        return None;
    }
    let mut i: usize = 0;
    assert(node.child@.skip(0) =~= node.child@);
    while i < node.child.len()
        invariant
            i <= node.child@.len(),
            usable_path(*node, target@) == usable_path_forest(node.child@.skip(i as int), target@, i as int),
        decreases node.child@.len() - i,
    {
        assert(node.child@.skip(i as int)[0] == node.child@[i as int]);
        assert(node.child@.skip(i as int).drop_first() =~= node.child@.skip(i + 1));
        match usable_path_in(&node.child[i], target) {
            Some(p) => {
                let mut full: Vec<usize> = Vec::new();
                full.push(i);
                let mut rest = p;
                full.append(&mut rest);
                assert(full@ =~= seq![i] + usable_path(node.child@[i as int], target@)->0);
                return Some(full);
            },
            None => {},
        }
        i = i + 1;
    }
    assert(node.child@.skip(i as int) =~= Seq::<UiNode>::empty());
    None
}

/// The index path of the first node, depth first, whose id is `target` and
/// that can be used (the node `find_effectively_visible_node_by_id` finds).
pub fn usable_node_path(node: &UiNode, target: &str) -> (r: Option<Vec<usize>>)
    ensures
        match usable_path(*node, target@) {
            Some(p) => r matches Some(v) && v@ == p,
            None => r is None,
        },
{
    let t = chars_of(target);
    usable_path_in(node, t.as_slice())
}


// ---------------------------------------------------------------------------
// Rows of the contract list
// ---------------------------------------------------------------------------

/// A data row of the game's contract list: visible, not one the screen
/// added, shaped as a contract row, and naming a player.
pub open spec fn data_row(node: UiNode) -> bool {
    node.visible && !starts_with(node.id@, "pts_trade_pending_contract_slot_test79_"@) && slot_shaped(node)
        && view_detail_in(node) is Some
}

/// The header row of the game's contract list: as a data row, but naming no
/// player.
pub open spec fn header_row(node: UiNode) -> bool {
    node.visible && !starts_with(node.id@, "pts_trade_pending_contract_slot_test79_"@) && slot_shaped(node)
        && view_detail_in(node) is None
}

fn added_row(node: &UiNode) -> (b: bool)
    ensures
        b == starts_with(node.id@, "pts_trade_pending_contract_slot_test79_"@),
{
    let own = chars_of(node.id.as_str());
    starts_with_exec(own.as_slice(), chars_of("pts_trade_pending_contract_slot_test79_").as_slice())
}

pub fn native_contract_data_row(node: &UiNode) -> (b: bool)
    ensures
        b == data_row(*node),
{
    node.visible && !added_row(node) && contract_slot_shape(node) && node_has_descendant_view_detail(node)
}

pub fn native_contract_header_row(node: &UiNode) -> (b: bool)
    ensures
        b == header_row(*node),
{
    node.visible && !added_row(node) && contract_slot_shape(node) && !node_has_descendant_view_detail(node)
}

/// How many of the columns of a contract row `row` has as children.
pub open spec fn column_count(row: UiNode, k: int) -> nat
    decreases k,
{
    if k <= 0 {
        0
    } else {
        column_count(row, k - 1) + if child_with_id(row.child@, contract_slot_ids()[k - 1]) is Some {
            1nat
        } else {
            0nat
        }
    }
}

pub fn projection_top_level_column_count(row: &UiNode) -> (n: usize)
    ensures
        n == column_count(*row, 10),
{
    let ids = [
        "position",
        "name",
        "team",
        "contract",
        "salary",
        "transfer_fee",
        "squad_status",
        "contract_state",
        "contract_limit",
        "action",
    ];
    assert(id_texts(ids@) =~= contract_slot_ids());
    let mut n: usize = 0;
    let mut k: usize = 0;
    while k < ids.len()
        invariant
            k <= 10,
            ids@.len() == 10,
            id_texts(ids@) == contract_slot_ids(),
            n == column_count(*row, k as int),
            n <= k,
        decreases 10 - k,
    {
        assert(contract_slot_ids()[k as int] == ids@[k as int]@);
        if direct_child(row, ids[k]).is_some() {
            n = n + 1;
        }
        k = k + 1;
    }
    n
}

/// The children of `row` are exactly the columns, in order.
pub open spec fn exact_column_order(row: UiNode) -> bool {
    row.child@.map_values(|c: UiNode| c.id@) == contract_slot_ids()
}

pub fn projection_exact_top_level_column_order(row: &UiNode) -> (b: bool)
    ensures
        b == exact_column_order(*row),
{
    let ids = [
        "position",
        "name",
        "team",
        "contract",
        "salary",
        "transfer_fee",
        "squad_status",
        "contract_state",
        "contract_limit",
        "action",
    ];
    assert(id_texts(ids@) =~= contract_slot_ids());
    if row.child.len() != 10 {
        assert(row.child@.map_values(|c: UiNode| c.id@).len() != contract_slot_ids().len());
        return false;
    }
    let mut k: usize = 0;
    while k < 10
        invariant
            k <= 10,
            row.child@.len() == 10,
            ids@.len() == 10,
            id_texts(ids@) == contract_slot_ids(),
            forall|j: int| 0 <= j < k ==> row.child@[j].id@ == contract_slot_ids()[j],
        decreases 10 - k,
    {
        assert(contract_slot_ids()[k as int] == ids@[k as int]@);
        if !same_id(&row.child[k], chars_of(ids[k]).as_slice()) {
            assert(row.child@.map_values(|c: UiNode| c.id@)[k as int] != contract_slot_ids()[k as int]);
            return false;
        }
        k = k + 1;
    }
    assert(row.child@.map_values(|c: UiNode| c.id@) =~= contract_slot_ids());
    true
}

} // verus!
