//! What the window listing holds, said without regard to its order: the
//! windows that can be reached from a visible workspace, each once.

use vstd::prelude::*;
use crate::geometry::Rect;
use crate::tree::{
    node_windows, own_window, stack_windows, visible_window_rects, visible_workspace_nodes,
    worklist_windows, WindowNode, Workspace,
};

verus! {

/// `n` is a node of the subtree of `top`: `top` itself, or a node of the
/// subtree of one of its ordinary or floating children.
pub open spec fn within(top: WindowNode, n: WindowNode) -> bool
    decreases top, 0nat,
{
    top == n || within_any(top.nodes@, top.nodes@.len(), n) || within_any(
        top.floating_nodes@,
        top.floating_nodes@.len(),
        n,
    )
}

/// `n` is a node of the subtree of one of the first `k` nodes of `s`.
pub open spec fn within_any(s: Seq<WindowNode>, k: nat, n: WindowNode) -> bool
    decreases s, k,
{
    0 < k <= s.len() && (within(s[k - 1], n) || within_any(s, (k - 1) as nat, n))
}

/// `n` is a window with the rectangle `r`.
pub open spec fn window_at(n: WindowNode, r: Rect) -> bool {
    n.pid is Some && n.rect == r
}

/// The number of nodes in a subtree that carry a process id.
pub open spec fn window_count(n: WindowNode) -> nat
    decreases n, 0nat,
{
    (if n.pid is Some {
        1nat
    } else {
        0nat
    }) + forest_window_count(n.nodes@, n.nodes@.len()) + forest_window_count(
        n.floating_nodes@,
        n.floating_nodes@.len(),
    )
}

/// The number of nodes that carry a process id in the subtrees of the first
/// `k` nodes of `s`.
pub open spec fn forest_window_count(s: Seq<WindowNode>, k: nat) -> nat
    decreases s, k,
{
    if k == 0 || k > s.len() {
        0
    } else {
        forest_window_count(s, (k - 1) as nat) + window_count(s[k - 1])
    }
}

proof fn lemma_contains_concat(a: Seq<Rect>, b: Seq<Rect>, r: Rect)
    ensures
        (a + b).contains(r) <==> a.contains(r) || b.contains(r),
{
    if (a + b).contains(r) {
        let i = choose|i: int| 0 <= i < (a + b).len() && (a + b)[i] == r;
        if i < a.len() {
            assert(a[i] == r);
        } else {
            assert(b[i - a.len()] == r);
        }
    }
    if a.contains(r) {
        let i = choose|i: int| 0 <= i < a.len() && a[i] == r;
        assert((a + b)[i] == r);
    }
    if b.contains(r) {
        let i = choose|i: int| 0 <= i < b.len() && b[i] == r;
        assert((a + b)[a.len() + i] == r);
    }
}

proof fn lemma_node_windows_split(n: WindowNode, r: Rect)
    ensures
        node_windows(n).contains(r) <==> own_window(n).contains(r) || worklist_windows(
            n.floating_nodes@,
        ).contains(r) || worklist_windows(n.nodes@).contains(r),
{
    lemma_contains_concat(
        own_window(n) + worklist_windows(n.floating_nodes@),
        worklist_windows(n.nodes@),
        r,
    );
    lemma_contains_concat(own_window(n), worklist_windows(n.floating_nodes@), r);
}

proof fn lemma_node_windows_sound(top: WindowNode, r: Rect) -> (n: WindowNode)
    requires
        node_windows(top).contains(r),
    ensures
        within(top, n),
        window_at(n, r),
    decreases top, 0nat,
{
    lemma_node_windows_split(top, r);
    if own_window(top).contains(r) {
        top
    } else if worklist_windows(top.floating_nodes@).contains(r) {
        lemma_stack_windows_sound(top.floating_nodes@, top.floating_nodes@.len(), r)
    } else {
        lemma_stack_windows_sound(top.nodes@, top.nodes@.len(), r)
    }
}

proof fn lemma_stack_windows_sound(s: Seq<WindowNode>, k: nat, r: Rect) -> (n: WindowNode)
    requires
        stack_windows(s, k).contains(r),
    ensures
        within_any(s, k, n),
        window_at(n, r),
    decreases s, k,
{
    if k == 0 || k > s.len() {
        assert(stack_windows(s, k) =~= Seq::<Rect>::empty());
        assert(false);
        s[0]
    } else {
        lemma_contains_concat(node_windows(s[k - 1]), stack_windows(s, (k - 1) as nat), r);
        if node_windows(s[k - 1]).contains(r) {
            lemma_node_windows_sound(s[k - 1], r)
        } else {
            lemma_stack_windows_sound(s, (k - 1) as nat, r)
        }
    }
}

proof fn lemma_node_windows_complete(top: WindowNode, n: WindowNode, r: Rect)
    requires
        within(top, n),
        window_at(n, r),
    ensures
        node_windows(top).contains(r),
    decreases top, 0nat,
{
    lemma_node_windows_split(top, r);
    if top == n {
        assert(own_window(top)[0] == r);
    } else if within_any(top.nodes@, top.nodes@.len(), n) {
        lemma_stack_windows_complete(top.nodes@, top.nodes@.len(), n, r);
    } else {
        lemma_stack_windows_complete(top.floating_nodes@, top.floating_nodes@.len(), n, r);
    }
}

proof fn lemma_stack_windows_complete(s: Seq<WindowNode>, k: nat, n: WindowNode, r: Rect)
    requires
        within_any(s, k, n),
        window_at(n, r),
    ensures
        stack_windows(s, k).contains(r),
    decreases s, k,
{
    lemma_contains_concat(node_windows(s[k - 1]), stack_windows(s, (k - 1) as nat), r);
    if within(s[k - 1], n) {
        lemma_node_windows_complete(s[k - 1], n, r);
    } else {
        lemma_stack_windows_complete(s, (k - 1) as nat, n, r);
    }
}

/// A rectangle is listed as on screen exactly where some node in the subtree
/// of a workspace node whose name is listed as visible carries a process id
/// and has that rectangle. Containers are left out, no window is, at whatever
/// depth it lies and whether it floats or not, and nothing is listed for a
/// workspace that is not visible.
pub proof fn lemma_listing_is_exact(root: WindowNode, workspaces: Seq<Workspace>, r: Rect)
    ensures
        visible_window_rects(root, workspaces).contains(r) <==> exists|n: WindowNode|
            #[trigger] window_at(n, r) && within_any(
                visible_workspace_nodes(root, workspaces),
                visible_workspace_nodes(root, workspaces).len(),
                n,
            ),
{
    let tops = visible_workspace_nodes(root, workspaces);
    if visible_window_rects(root, workspaces).contains(r) {
        let n = lemma_stack_windows_sound(tops, tops.len(), r);
        assert(window_at(n, r) && within_any(tops, tops.len(), n));
    }
    if exists|n: WindowNode| #[trigger] window_at(n, r) && within_any(tops, tops.len(), n) {
        let n = choose|n: WindowNode| #[trigger] window_at(n, r) && within_any(tops, tops.len(), n);
        lemma_stack_windows_complete(tops, tops.len(), n, r);
    }
}

proof fn lemma_node_windows_len(n: WindowNode)
    ensures
        node_windows(n).len() == window_count(n),
    decreases n, 0nat,
{
    lemma_stack_windows_len(n.nodes@, n.nodes@.len());
    lemma_stack_windows_len(n.floating_nodes@, n.floating_nodes@.len());
}

proof fn lemma_stack_windows_len(s: Seq<WindowNode>, k: nat)
    ensures
        stack_windows(s, k).len() == forest_window_count(s, k),
    decreases s, k,
{
    if k == 0 || k > s.len() {
    } else {
        lemma_node_windows_len(s[k - 1]);
        lemma_stack_windows_len(s, (k - 1) as nat);
    }
}

/// The listing has one entry for each node with a process id under a visible
/// workspace: no window is listed twice.
pub proof fn lemma_each_window_listed_once(root: WindowNode, workspaces: Seq<Workspace>)
    ensures
        visible_window_rects(root, workspaces).len() == forest_window_count(
            visible_workspace_nodes(root, workspaces),
            visible_workspace_nodes(root, workspaces).len(),
        ),
{
    let tops = visible_workspace_nodes(root, workspaces);
    lemma_stack_windows_len(tops, tops.len());
}

/// The rectangle `r` and no other.
pub open spec fn same_as(r: Rect) -> spec_fn(Rect) -> bool {
    |x: Rect| x == r
}

/// How often `r` stands in `s`.
pub open spec fn occurrences(s: Seq<Rect>, r: Rect) -> nat {
    s.filter(same_as(r)).len()
}

/// The number of windows in a subtree that have the rectangle `r`.
pub open spec fn windows_at(n: WindowNode, r: Rect) -> nat
    decreases n, 0nat,
{
    (if window_at(n, r) {
        1nat
    } else {
        0nat
    }) + forest_windows_at(n.nodes@, n.nodes@.len(), r) + forest_windows_at(
        n.floating_nodes@,
        n.floating_nodes@.len(),
        r,
    )
}

/// The number of windows with the rectangle `r` in the subtrees of the first
/// `k` nodes of `s`.
pub open spec fn forest_windows_at(s: Seq<WindowNode>, k: nat, r: Rect) -> nat
    decreases s, k,
{
    if k == 0 || k > s.len() {
        0
    } else {
        forest_windows_at(s, (k - 1) as nat, r) + windows_at(s[k - 1], r)
    }
}

proof fn lemma_occurrences_concat(a: Seq<Rect>, b: Seq<Rect>, r: Rect)
    ensures
        occurrences(a + b, r) == occurrences(a, r) + occurrences(b, r),
{
    Seq::filter_distributes_over_add(a, b, same_as(r));
}

proof fn lemma_own_window_occurrences(n: WindowNode, r: Rect)
    ensures
        occurrences(own_window(n), r) == (if window_at(n, r) {
            1nat
        } else {
            0nat
        }),
{
    let none = Seq::<Rect>::empty();
    assert(none.filter(same_as(r)).len() == 0) by {
        none.lemma_filter_len(same_as(r));
    }
    if n.pid is Some {
        none.lemma_filter_push(n.rect, same_as(r));
        assert(own_window(n) =~= none.push(n.rect));
    }
}

proof fn lemma_node_windows_occurrences(n: WindowNode, r: Rect)
    ensures
        occurrences(node_windows(n), r) == windows_at(n, r),
    decreases n, 0nat,
{
    lemma_own_window_occurrences(n, r);
    lemma_stack_windows_occurrences(n.nodes@, n.nodes@.len(), r);
    lemma_stack_windows_occurrences(n.floating_nodes@, n.floating_nodes@.len(), r);
    lemma_occurrences_concat(
        own_window(n) + worklist_windows(n.floating_nodes@),
        worklist_windows(n.nodes@),
        r,
    );
    lemma_occurrences_concat(own_window(n), worklist_windows(n.floating_nodes@), r);
}

proof fn lemma_stack_windows_occurrences(s: Seq<WindowNode>, k: nat, r: Rect)
    ensures
        occurrences(stack_windows(s, k), r) == forest_windows_at(s, k, r),
    decreases s, k,
{
    if k == 0 || k > s.len() {
        Seq::<Rect>::empty().lemma_filter_len(same_as(r));
    } else {
        lemma_node_windows_occurrences(s[k - 1], r);
        lemma_stack_windows_occurrences(s, (k - 1) as nat, r);
        lemma_occurrences_concat(node_windows(s[k - 1]), stack_windows(s, (k - 1) as nat), r);
    }
}

/// A rectangle stands in the listing as often as there are windows with that
/// rectangle under the visible workspaces: each window is listed, and none
/// more than once.
pub proof fn lemma_listing_counts_each_window(
    root: WindowNode,
    workspaces: Seq<Workspace>,
    r: Rect,
)
    ensures
        occurrences(visible_window_rects(root, workspaces), r) == forest_windows_at(
            visible_workspace_nodes(root, workspaces),
            visible_workspace_nodes(root, workspaces).len(),
            r,
        ),
{
    let tops = visible_workspace_nodes(root, workspaces);
    lemma_stack_windows_occurrences(tops, tops.len(), r);
}

} // verus!
