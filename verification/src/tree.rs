//! The compositor's window tree and the windows that are on screen.

use vstd::prelude::*;
use crate::geometry::{format_geometry, geometry_text, Rect};

verus! {

/// What a node of the compositor's tree stands for.
#[derive(Clone, Copy, Debug, PartialEq, Eq, Structural)]
pub enum NodeKind {
    Root,
    Output,
    Workspace,
    Container,
    FloatingContainer,
}

/// A node of the compositor's tree. A node with a process id is a window;
/// one without is a container.
#[derive(Debug, PartialEq, Eq)]
pub struct WindowNode {
    pub kind: NodeKind,
    pub name: Option<String>,
    pub pid: Option<i32>,
    pub rect: Rect,
    pub nodes: Vec<WindowNode>,
    pub floating_nodes: Vec<WindowNode>,
}

/// A workspace as the compositor lists it.
#[derive(Clone, Debug, PartialEq, Eq)]
pub struct Workspace {
    pub name: String,
    pub visible: bool,
}

/// Why a tree could not be read.
#[derive(Clone, Copy, Debug, PartialEq, Eq, Structural)]
pub enum TreeError {
    /// A workspace node carries no name.
    UnnamedWorkspace,
}

/// The number of nodes in a subtree.
pub open spec fn tree_size(n: WindowNode) -> nat
    decreases n, 0nat,
{
    1 + forest_size(n.nodes@, n.nodes@.len()) + forest_size(
        n.floating_nodes@,
        n.floating_nodes@.len(),
    )
}

/// The number of nodes in the subtrees of the first `k` nodes of `s`.
pub open spec fn forest_size(s: Seq<WindowNode>, k: nat) -> nat
    decreases s, k,
{
    if k == 0 || k > s.len() {
        0
    } else {
        forest_size(s, (k - 1) as nat) + tree_size(s[k - 1])
    }
}

/// The window that a node itself contributes: its rectangle where it carries
/// a process id, nothing where it is a container.
pub open spec fn own_window(n: WindowNode) -> Seq<Rect> {
    if n.pid is Some {
        seq![n.rect]
    } else {
        Seq::empty()
    }
}

/// The rectangles of the windows in a subtree, in the order in which a
/// worklist that hands out its newest entry first meets them: the node itself,
/// then its floating children, then its ordinary children, each group from its
/// last member to its first.
pub open spec fn node_windows(n: WindowNode) -> Seq<Rect>
    decreases n, 0nat,
{
    own_window(n) + stack_windows(n.floating_nodes@, n.floating_nodes@.len()) + stack_windows(
        n.nodes@,
        n.nodes@.len(),
    )
}

/// The rectangles met when the first `k` nodes of `s` are taken as a worklist
/// whose newest entry is the last of them.
pub open spec fn stack_windows(s: Seq<WindowNode>, k: nat) -> Seq<Rect>
    decreases s, k,
{
    if k == 0 || k > s.len() {
        Seq::empty()
    } else {
        node_windows(s[k - 1]) + stack_windows(s, (k - 1) as nat)
    }
}

/// The rectangles met when all of `s` is taken as a worklist.
pub open spec fn worklist_windows(s: Seq<WindowNode>) -> Seq<Rect> {
    stack_windows(s, s.len())
}

/// The nodes behind a sequence of borrowed nodes.
pub open spec fn deref_all(s: Seq<&WindowNode>) -> Seq<WindowNode> {
    s.map_values(|r: &WindowNode| *r)
}

pub open spec fn output_kind() -> spec_fn(WindowNode) -> bool {
    |n: WindowNode| n.kind == NodeKind::Output
}

pub open spec fn workspace_kind() -> spec_fn(WindowNode) -> bool {
    |n: WindowNode| n.kind == NodeKind::Workspace
}

pub open spec fn children() -> spec_fn(WindowNode) -> Seq<WindowNode> {
    |n: WindowNode| n.nodes@
}

/// The workspace nodes that are direct children of the output nodes among
/// `tops`, in tree order.
pub open spec fn workspaces_under(tops: Seq<WindowNode>) -> Seq<WindowNode> {
    tops.filter(output_kind()).flat_map(children()).filter(workspace_kind())
}

/// Every workspace that the tree knows, visible or not.
pub open spec fn workspace_nodes(root: WindowNode) -> Seq<WindowNode> {
    workspaces_under(root.nodes@)
}

/// The names of the workspaces that are listed as visible.
pub open spec fn visible_names(workspaces: Seq<Workspace>) -> Set<Seq<char>> {
    Set::new(
        |name: Seq<char>|
            exists|i: int|
                0 <= i < workspaces.len() && (#[trigger] workspaces[i]).visible
                    && workspaces[i].name@ == name,
    )
}

/// A node whose name is one of `names`.
pub open spec fn named_in(names: Set<Seq<char>>) -> spec_fn(WindowNode) -> bool {
    |n: WindowNode| n.name is Some && names.contains(n.name->0@)
}

/// Every node of `s` carries a name.
pub open spec fn all_named(s: Seq<WindowNode>) -> bool {
    forall|i: int| 0 <= i < s.len() ==> (#[trigger] s[i]).name is Some
}

/// The workspace nodes of the tree whose name is listed as visible.
pub open spec fn visible_workspace_nodes(
    root: WindowNode,
    workspaces: Seq<Workspace>,
) -> Seq<WindowNode> {
    workspace_nodes(root).filter(named_in(visible_names(workspaces)))
}

/// The rectangles of the windows that are on screen, in the order in which
/// the extractor lists them.
pub open spec fn visible_window_rects(root: WindowNode, workspaces: Seq<Workspace>) -> Seq<Rect> {
    worklist_windows(visible_workspace_nodes(root, workspaces))
}

/// `texts` holds the encodings of `rects`, one for one.
pub open spec fn encodes(texts: Seq<String>, rects: Seq<Rect>) -> bool {
    &&& texts.len() == rects.len()
    &&& forall|i: int| 0 <= i < texts.len() ==> (#[trigger] texts[i])@ == geometry_text(rects[i])
}

/// What a worklist yields depends only on the entries that it holds.
proof fn lemma_stack_windows_prefix(a: Seq<WindowNode>, b: Seq<WindowNode>, k: nat)
    requires
        k <= a.len(),
        k <= b.len(),
        forall|i: int| 0 <= i < k ==> a[i] == b[i],
    ensures
        stack_windows(a, k) == stack_windows(b, k),
    decreases k,
{
    if k > 0 {
        lemma_stack_windows_prefix(a, b, (k - 1) as nat);
    }
}

proof fn lemma_stack_windows_concat(a: Seq<WindowNode>, b: Seq<WindowNode>, k: nat)
    requires
        k <= b.len(),
    ensures
        stack_windows(a + b, a.len() + k) == stack_windows(b, k) + worklist_windows(a),
    decreases k,
{
    if k == 0 {
        lemma_stack_windows_prefix(a + b, a, a.len());
        assert(stack_windows(b, 0) + worklist_windows(a) =~= worklist_windows(a));
    } else {
        lemma_stack_windows_concat(a, b, (k - 1) as nat);
        assert((a + b)[a.len() + k - 1] == b[k - 1]);
        assert(stack_windows(a + b, a.len() + k) =~= stack_windows(b, k) + worklist_windows(a));
    }
}

/// Entries put on top of a worklist are met first, and the rest afterwards.
proof fn lemma_worklist_windows_concat(a: Seq<WindowNode>, b: Seq<WindowNode>)
    ensures
        worklist_windows(a + b) == worklist_windows(b) + worklist_windows(a),
{
    lemma_stack_windows_concat(a, b, b.len());
}

proof fn lemma_forest_size_prefix(a: Seq<WindowNode>, b: Seq<WindowNode>, k: nat)
    requires
        k <= a.len(),
        k <= b.len(),
        forall|i: int| 0 <= i < k ==> a[i] == b[i],
    ensures
        forest_size(a, k) == forest_size(b, k),
    decreases k,
{
    if k > 0 {
        lemma_forest_size_prefix(a, b, (k - 1) as nat);
    }
}

proof fn lemma_forest_size_concat(a: Seq<WindowNode>, b: Seq<WindowNode>, k: nat)
    requires
        k <= b.len(),
    ensures
        forest_size(a + b, a.len() + k) == forest_size(a, a.len()) + forest_size(b, k),
    decreases k,
{
    if k == 0 {
        lemma_forest_size_prefix(a + b, a, a.len());
    } else {
        lemma_forest_size_concat(a, b, (k - 1) as nat);
        assert((a + b)[a.len() + k - 1] == b[k - 1]);
    }
}

/// Puts borrows of all of `children` on top of the worklist, first child
/// lowest.
fn push_all<'a>(stack: &mut Vec<&'a WindowNode>, children: &'a Vec<WindowNode>)
    ensures
        deref_all(final(stack)@) == deref_all(old(stack)@) + children@,
{
    let mut i: usize = 0;
    while i < children.len()
        invariant
            i <= children.len(),
            deref_all(stack@) == deref_all(old(stack)@) + children@.take(i as int),
        decreases children.len() - i,
    {
        let ghost below = stack@;
        stack.push(&children[i]);
        proof {
            assert(deref_all(stack@) =~= deref_all(below).push(children@[i as int]));
            children@.lemma_take_succ_push(i as int);
            assert(deref_all(stack@) =~= deref_all(old(stack)@) + children@.take(i + 1));
        }
        i += 1;
    }
    proof {
        assert(children@.take(i as int) =~= children@);
    }
}

/// Whether `name` is the name of a workspace that is listed as visible.
fn is_visible_name(name: &String, workspaces: &Vec<Workspace>) -> (found: bool)
    ensures
        found == visible_names(workspaces@).contains(name@),
{
    let mut i: usize = 0;
    while i < workspaces.len()
        invariant
            i <= workspaces.len(),
            forall|j: int| 0 <= j < i ==> !((#[trigger] workspaces@[j]).visible && workspaces@[j].name@ == name@),
        decreases workspaces.len() - i,
    {
        if workspaces[i].visible && workspaces[i].name == *name {
            return true;
        }
        i += 1;
    }
    false
}

/// Adds to `found` the workspaces among the children of one output whose name
/// is listed as visible.
fn collect_workspaces<'a>(
    found: &mut Vec<&'a WindowNode>,
    output: &'a WindowNode,
    workspaces: &Vec<Workspace>,
) -> (result: Result<(), TreeError>)
    ensures
        result is Ok <==> all_named(output.nodes@.filter(workspace_kind())),
        result is Ok ==> deref_all(final(found)@) == deref_all(old(found)@)
            + output.nodes@.filter(workspace_kind()).filter(named_in(visible_names(workspaces@))),
{
    let ghost names = visible_names(workspaces@);
    let mut j: usize = 0;
    while j < output.nodes.len()
        invariant
            j <= output.nodes.len(),
            names == visible_names(workspaces@),
            all_named(output.nodes@.take(j as int).filter(workspace_kind())),
            deref_all(found@) == deref_all(old(found)@) + output.nodes@.take(j as int).filter(
                workspace_kind(),
            ).filter(named_in(names)),
        decreases output.nodes.len() - j,
    {
        let node = &output.nodes[j];
        proof {
            let before = output.nodes@.take(j as int);
            output.nodes@.lemma_take_succ_push(j as int);
            before.lemma_filter_push(*node, workspace_kind());
            before.filter(workspace_kind()).lemma_filter_push(*node, named_in(names));
        }
        if node.kind == NodeKind::Workspace {
            match &node.name {
                None => {
                    proof {
                        let all = output.nodes@.filter(workspace_kind());
                        output.nodes@.lemma_filter_contains(workspace_kind(), j as int);
                        let k = choose|k: int| 0 <= k < all.len() && all[k] == *node;
                        assert(all[k].name is None);
                    }
                    return Err(TreeError::UnnamedWorkspace);
                },
                Some(name) => {
                    if is_visible_name(name, workspaces) {
                        let ghost below = found@;
                        found.push(node);
                        proof {
                            assert(named_in(names)(*node));
                            assert(deref_all(found@) =~= deref_all(below).push(*node));
                            assert(deref_all(found@) =~= deref_all(old(found)@) + output.nodes@.take(
                                j + 1,
                            ).filter(workspace_kind()).filter(named_in(names)));
                        }
                    }
                },
            }
        }
        j += 1;
    }
    proof {
        assert(output.nodes@.take(j as int) =~= output.nodes@);
    }
    Ok(())
}

/// Picks from the tree the workspaces that are on screen: the workspace nodes
/// directly under an output node whose name is listed as visible, in tree
/// order. A workspace node without a name is an error, whether it would have
/// been picked or not.
pub fn visible_workspaces<'a>(root: &'a WindowNode, workspaces: &Vec<Workspace>) -> (result: Result<
    Vec<&'a WindowNode>,
    TreeError,
>)
    ensures
        result is Ok <==> all_named(workspace_nodes(*root)),
        result is Ok ==> deref_all(result->Ok_0@) == visible_workspace_nodes(*root, workspaces@),
        result is Err ==> result->Err_0 == TreeError::UnnamedWorkspace,
{
    let ghost shown = named_in(visible_names(workspaces@));
    let mut found: Vec<&'a WindowNode> = Vec::new();
    let mut i: usize = 0;
    proof {
        assert(deref_all(found@) =~= workspaces_under(root.nodes@.take(0)).filter(shown));
    }
    while i < root.nodes.len()
        invariant
            i <= root.nodes.len(),
            shown == named_in(visible_names(workspaces@)),
            all_named(workspaces_under(root.nodes@.take(i as int))),
            deref_all(found@) == workspaces_under(root.nodes@.take(i as int)).filter(shown),
        decreases root.nodes.len() - i,
    {
        let output = &root.nodes[i];
        proof {
            lemma_workspaces_under_push(root.nodes@.take(i as int), *output);
            root.nodes@.lemma_take_succ_push(i as int);
            Seq::filter_distributes_over_add(
                workspaces_under(root.nodes@.take(i as int)),
                output.nodes@.filter(workspace_kind()),
                shown,
            );
        }
        if output.kind == NodeKind::Output {
            match collect_workspaces(&mut found, output, workspaces) {
                Err(e) => {
                    proof {
                        lemma_all_named_concat(
                            workspaces_under(root.nodes@.take(i as int)),
                            output.nodes@.filter(workspace_kind()),
                        );
                        lemma_workspaces_under_monotone(root.nodes@, i as int + 1);
                    }
                    return Err(e);
                },
                Ok(()) => {},
            }
        }
        i += 1;
    }
    proof {
        assert(root.nodes@.take(i as int) =~= root.nodes@);
    }
    Ok(found)
}

/// The geometry of a node: its rectangle in the textual encoding.
pub fn node_geometry(node: &WindowNode) -> (text: String)
    ensures
        text@ == geometry_text(node.rect),
{
    format_geometry(&node.rect)
}

/// Lists the geometry of every window that is on screen: every node with a
/// process id in the subtree of a workspace that is listed as visible,
/// ordinary and floating children alike. Containers are passed through and
/// not listed. A workspace node without a name is an error.
pub fn visible_windows(root: &WindowNode, workspaces: &Vec<Workspace>) -> (result: Result<
    Vec<String>,
    TreeError,
>)
    ensures
        result is Ok <==> all_named(workspace_nodes(*root)),
        result is Ok ==> encodes(result->Ok_0@, visible_window_rects(*root, workspaces@)),
        result is Err ==> result->Err_0 == TreeError::UnnamedWorkspace,
{
    let mut stack = match visible_workspaces(root, workspaces) {
        Ok(found) => found,
        Err(e) => {
            return Err(e);
        },
    };
    let mut output: Vec<String> = Vec::new();
    let ghost mut listed: Seq<Rect> = Seq::empty();
    let ghost all = visible_window_rects(*root, workspaces@);
    proof {
        assert(listed + worklist_windows(deref_all(stack@)) =~= all);
    }
    while stack.len() > 0
        invariant
            encodes(output@, listed),
            listed + worklist_windows(deref_all(stack@)) == all,
        decreases forest_size(deref_all(stack@), stack@.len()),
    {
        let ghost before = deref_all(stack@);
        let node = stack.pop().unwrap();
        let ghost rest = deref_all(stack@);
        proof {
            assert(rest =~= before.drop_last());
            lemma_stack_windows_prefix(before, rest, rest.len());
            lemma_forest_size_prefix(before, rest, rest.len());
        }
        if node.pid.is_some() {
            output.push(node_geometry(node));
        }
        let ghost emitted = listed + own_window(*node);
        push_all(&mut stack, &node.nodes);
        push_all(&mut stack, &node.floating_nodes);
        proof {
            let with_nodes = rest + node.nodes@;
            lemma_worklist_windows_concat(rest, node.nodes@);
            lemma_worklist_windows_concat(with_nodes, node.floating_nodes@);
            lemma_forest_size_concat(rest, node.nodes@, node.nodes@.len());
            lemma_forest_size_concat(with_nodes, node.floating_nodes@, node.floating_nodes@.len());
            assert(worklist_windows(before) == node_windows(*node) + worklist_windows(rest));
            assert(forest_size(before, before.len()) == forest_size(rest, rest.len()) + tree_size(
                *node,
            ));
            assert(emitted + worklist_windows(deref_all(stack@)) =~= listed + worklist_windows(
                before,
            ));
            listed = emitted;
        }
    }
    proof {
        assert(listed =~= all);
    }
    Ok(output)
}

/// Two runs of nodes all carry names exactly where each run does.
proof fn lemma_all_named_concat(a: Seq<WindowNode>, b: Seq<WindowNode>)
    ensures
        all_named(a + b) <==> all_named(a) && all_named(b),
{
    if all_named(a + b) {
        assert forall|i: int| 0 <= i < a.len() implies (#[trigger] a[i]).name is Some by {
            assert((a + b)[i] == a[i]);
        }
        assert forall|i: int| 0 <= i < b.len() implies (#[trigger] b[i]).name is Some by {
            assert((a + b)[a.len() + i] == b[i]);
        }
    }
}

/// Adding one more top-level node adds its workspace children where it is an
/// output, and nothing where it is not.
proof fn lemma_workspaces_under_push(tops: Seq<WindowNode>, next: WindowNode)
    ensures
        workspaces_under(tops.push(next)) == workspaces_under(tops) + (if next.kind
            == NodeKind::Output {
            next.nodes@.filter(workspace_kind())
        } else {
            Seq::empty()
        }),
{
    tops.lemma_filter_push(next, output_kind());
    if next.kind == NodeKind::Output {
        tops.filter(output_kind()).lemma_flat_map_push(children(), next);
        Seq::filter_distributes_over_add(
            tops.filter(output_kind()).flat_map(children()),
            next.nodes@,
            workspace_kind(),
        );
    } else {
        assert(workspaces_under(tops) + Seq::<WindowNode>::empty() =~= workspaces_under(tops));
    }
}

/// A workspace without a name under the first `k` top-level nodes is one
/// under all of them.
proof fn lemma_workspaces_under_monotone(tops: Seq<WindowNode>, k: int)
    requires
        0 <= k <= tops.len(),
        !all_named(workspaces_under(tops.take(k))),
    ensures
        !all_named(workspaces_under(tops)),
    decreases tops.len() - k,
{
    if k < tops.len() {
        lemma_workspaces_under_push(tops.take(k), tops[k]);
        tops.lemma_take_succ_push(k);
        let shorter = workspaces_under(tops.take(k));
        let longer = workspaces_under(tops.take(k + 1));
        let bad = choose|i: int| 0 <= i < shorter.len() && !((#[trigger] shorter[i]).name is Some);
        assert(longer[bad] == shorter[bad]);
        lemma_workspaces_under_monotone(tops, k + 1);
    } else {
        assert(tops.take(k) =~= tops);
    }
}

} // verus!
