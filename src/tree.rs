use vstd::prelude::*;

verus! {

/// A workspace as the window manager's tree shows it: its id and its name.
#[derive(Debug)]
pub struct WorkspaceNode {
    pub id: i64,
    pub name: Option<String>,
}

/// An output (a display) and its workspaces, in tree order.
#[derive(Debug)]
pub struct OutputNode {
    pub workspaces: Vec<WorkspaceNode>,
}

/// A snapshot of the window manager's tree: its outputs, in tree order.
#[derive(Debug)]
pub struct WorkspaceTree {
    pub outputs: Vec<OutputNode>,
}

/// The first workspace of `ws` with the given id.
pub open spec fn first_in_output(ws: Seq<WorkspaceNode>, id: i64) -> Option<WorkspaceNode>
    decreases ws.len(),
{
    if ws.len() == 0 {
        None
    } else if ws[0].id == id {
        Some(ws[0])
    } else {
        first_in_output(ws.drop_first(), id)
    }
}

/// The first workspace with the given id, outputs taken in order.
pub open spec fn first_in_outputs(outs: Seq<OutputNode>, id: i64) -> Option<WorkspaceNode>
    decreases outs.len(),
{
    if outs.len() == 0 {
        None
    } else {
        match first_in_output(outs[0].workspaces@, id) {
            Some(w) => Some(w),
            None => first_in_outputs(outs.drop_first(), id),
        }
    }
}

/// The name of the workspace with the given id, where the tree has one and
/// it carries a name.
pub open spec fn name_by_id(tree: WorkspaceTree, id: i64) -> Option<Seq<char>> {
    match first_in_outputs(tree.outputs@, id) {
        Some(w) => match w.name {
            Some(n) => Some(n@),
            None => None,
        },
        None => None,
    }
}

proof fn lemma_first_in_output_from(ws: Seq<WorkspaceNode>, i: int, id: i64)
    requires
        0 <= i < ws.len(),
    ensures
        first_in_output(ws.subrange(i, ws.len() as int), id) == if ws[i].id == id {
            Some(ws[i])
        } else {
            first_in_output(ws.subrange(i + 1, ws.len() as int), id)
        },
{
    let tail = ws.subrange(i, ws.len() as int);
    assert(tail[0] == ws[i]);
    assert(tail.drop_first() =~= ws.subrange(i + 1, ws.len() as int));
}

proof fn lemma_first_in_outputs_from(outs: Seq<OutputNode>, i: int, id: i64)
    requires
        0 <= i < outs.len(),
    ensures
        first_in_outputs(outs.subrange(i, outs.len() as int), id) == match first_in_output(
            outs[i].workspaces@,
            id,
        ) {
            Some(w) => Some(w),
            None => first_in_outputs(outs.subrange(i + 1, outs.len() as int), id),
        },
{
    let tail = outs.subrange(i, outs.len() as int);
    assert(tail[0] == outs[i]);
    assert(tail.drop_first() =~= outs.subrange(i + 1, outs.len() as int));
}

/// Finds the first workspace with the given id in one output.
fn find_in_output(output: &OutputNode, id: i64) -> (r: Option<&WorkspaceNode>)
    ensures
        match r {
            Some(w) => first_in_output(output.workspaces@, id) == Some(*w),
            None => first_in_output(output.workspaces@, id) is None,
        },
{
    let ws = &output.workspaces;
    let n = ws.len();
    let mut j: usize = 0;
    assert(ws@.subrange(0, n as int) =~= ws@);
    while j < n
        invariant
            ws@ == output.workspaces@,
            n == ws@.len(),
            j <= n,
            first_in_output(ws@, id) == first_in_output(ws@.subrange(j as int, n as int), id),
        decreases n - j,
    {
        proof {
            lemma_first_in_output_from(ws@, j as int, id);
        }
        let w = &ws[j];
        if w.id == id {
            assert(*w == ws@[j as int]);
            return Some(w);
        }
        j = j + 1;
    }
    assert(ws@.subrange(n as int, n as int) =~= Seq::<WorkspaceNode>::empty());
    None
}

/// The name of the workspace with the given id: the first workspace with
/// that id, outputs taken in tree order, and `None` where there is no such
/// workspace or it has no name.
pub fn workspace_name_by_id(tree: &WorkspaceTree, id: i64) -> (r: Option<&str>)
    ensures
        match r {
            Some(n) => name_by_id(*tree, id) == Some(n@),
            None => name_by_id(*tree, id) is None,
        },
{
    let outs = &tree.outputs;
    let n = outs.len();
    let mut i: usize = 0;
    assert(outs@.subrange(0, n as int) =~= outs@);
    while i < n
        invariant
            outs@ == tree.outputs@,
            n == outs@.len(),
            i <= n,
            first_in_outputs(outs@, id) == first_in_outputs(outs@.subrange(i as int, n as int), id),
        decreases n - i,
    {
        proof {
            lemma_first_in_outputs_from(outs@, i as int, id);
        }
        match find_in_output(&outs[i], id) {
            Some(w) => {
                return match &w.name {
                    Some(name) => Some(name.as_str()),
                    None => None,
                };
            },
            None => {},
        }
        i = i + 1;
    }
    assert(outs@.subrange(n as int, n as int) =~= Seq::<OutputNode>::empty());
    None
}

/// The window-manager command that focuses the workspace with the given id,
/// `workspace <name>`, or `None` where the tree gives no name for that id.
pub fn focus_command(tree: &WorkspaceTree, id: i64) -> (r: Option<String>)
    ensures
        match name_by_id(*tree, id) {
            Some(n) => r is Some && r->0@ == "workspace "@ + n,
            None => r is None,
        },
{
    match workspace_name_by_id(tree, id) {
        Some(name) => {
            let mut cmd = String::from_str("workspace ");
            cmd.append(name);
            Some(cmd)
        },
        None => None,
    }
}

} // verus!
