//! The entities that a forest of scene nodes turns into.
//!
//! A scene is assembled under one root entity. Every node that is visited
//! becomes an entity that carries the node's transform. A node with a mesh
//! also gets one child entity for each primitive of the mesh, and after them
//! its child nodes are visited in turn. The children of a node without a mesh
//! are not visited.
//!
//! The plan lists the entities in the order in which they are spawned. Each
//! step names its parent by the parent's position in the plan, so a plan can
//! be carried out front to back.

use vstd::prelude::*;

verus! {

/// The shape of one node: what the plan needs to know of it.
#[derive(Debug)]
pub struct SceneNode {
    /// The caller's name for the node; the plan hands it back.
    pub tag: usize,
    /// The number of primitives of the node's mesh, if it has a mesh.
    pub primitives: Option<usize>,
    /// The child nodes, in order.
    pub children: Vec<SceneNode>,
}

/// What one step of the plan spawns.
#[derive(Clone, Copy, Debug, PartialEq, Eq)]
pub enum Spawn {
    /// The root of the scene, with the identity transform.
    Root,
    /// The entity of the node `tag`, with the node's transform.
    Node { tag: usize },
    /// The entity of primitive `index` of the mesh of node `tag`.
    Primitive { tag: usize, index: usize },
}

/// One step of the plan.
#[derive(Clone, Copy, Debug, PartialEq, Eq)]
pub struct Step {
    /// The position in the plan of the step that spawns the parent; `None`
    /// for the root.
    pub parent: Option<usize>,
    pub spawn: Spawn,
}

/// The steps for the `count` primitives of node `tag`, whose entity was
/// spawned at position `owner`.
pub open spec fn primitive_steps(tag: usize, count: nat, owner: usize) -> Seq<Step> {
    Seq::new(
        count,
        |i: int| Step { parent: Some(owner), spawn: Spawn::Primitive { tag, index: i as usize } },
    )
}

/// The steps for `node` and all that is visited below it, when the node hangs
/// under the step at position `parent` and its own step lands at position `at`.
pub open spec fn node_steps(node: SceneNode, parent: usize, at: int) -> Seq<Step>
    decreases node,
{
    let own = Step { parent: Some(parent), spawn: Spawn::Node { tag: node.tag } };
    match node.primitives {
        None => seq![own],
        Some(count) => seq![own] + primitive_steps(node.tag, count as nat, at as usize)
            + forest_steps(node.children@, at as usize, at + 1 + count),
    }
}

/// The steps for `nodes`, one after the other, all under the step at position
/// `parent`, the first of them landing at position `at`.
pub open spec fn forest_steps(nodes: Seq<SceneNode>, parent: usize, at: int) -> Seq<Step>
    decreases nodes,
{
    if nodes.len() == 0 {
        Seq::empty()
    } else {
        let front = forest_steps(nodes.drop_last(), parent, at);
        front + node_steps(nodes.last(), parent, at + front.len())
    }
}

/// The whole plan: the root, then the forest under it.
pub open spec fn scene_steps(nodes: Seq<SceneNode>) -> Seq<Step> {
    seq![Step { parent: None, spawn: Spawn::Root }] + forest_steps(nodes, 0, 1)
}

/// Whether step `i` of `plan` hangs under an earlier step of the right kind:
/// a node under the root or under another node, a primitive under the node
/// whose mesh it belongs to.
pub open spec fn hangs_well(plan: Seq<Step>, i: int) -> bool {
    match (plan[i].parent, plan[i].spawn) {
        (Some(p), Spawn::Node { .. }) => p < i && !(plan[p as int].spawn is Primitive),
        (Some(p), Spawn::Primitive { tag, .. }) => p < i && plan[p as int].spawn == (Spawn::Node {
            tag,
        }),
        _ => false,
    }
}

/// Whether `plan` can be carried out front to back: it starts with the root,
/// which has no parent, and every later step hangs well.
pub open spec fn well_formed(plan: Seq<Step>) -> bool {
    &&& plan.len() > 0
    &&& plan[0] == Step { parent: None, spawn: Spawn::Root }
    &&& forall|i: int| 0 < i < plan.len() ==> hangs_well(plan, i)
}

/// Whether step `j` of a run of steps that starts at position `at` of a plan
/// hangs under the step at position `parent`, or under an earlier step of
/// the run, of the right kind.
spec fn hangs_in_run(steps: Seq<Step>, parent: usize, at: int, j: int) -> bool {
    match (steps[j].parent, steps[j].spawn) {
        (Some(p), Spawn::Node { .. }) => p == parent || (at <= p < at + j && steps[p - at].spawn
            is Node),
        (Some(p), Spawn::Primitive { tag, .. }) => at <= p < at + j && steps[p - at].spawn == (
        Spawn::Node { tag }),
        _ => false,
    }
}

/// Whether every step of such a run hangs well in it.
spec fn run_hangs_well(steps: Seq<Step>, parent: usize, at: int) -> bool {
    forall|j: int| 0 <= j < steps.len() ==> hangs_in_run(steps, parent, at, j)
}

/// The steps of one node hang well among themselves, as long as every
/// position in them fits in a `usize`.
proof fn lemma_node_run(node: SceneNode, parent: usize, at: int)
    requires
        0 <= at,
        at + node_steps(node, parent, at).len() <= usize::MAX + 1,
    ensures
        run_hangs_well(node_steps(node, parent, at), parent, at),
    decreases node,
{
    let steps = node_steps(node, parent, at);
    match node.primitives {
        None => {},
        Some(count) => {
            let below = at + 1 + count;
            let inner = forest_steps(node.children@, at as usize, below);
            lemma_forest_run(node.children@, at as usize, below);
            assert forall|j: int| 0 <= j < steps.len() implies hangs_in_run(
                steps,
                parent,
                at,
                j,
            ) by {
                if j > count {
                    assert(hangs_in_run(inner, at as usize, below, j - 1 - count));
                }
            }
        },
    }
}

/// The steps of a forest hang well among themselves, as long as every
/// position in them fits in a `usize`.
proof fn lemma_forest_run(nodes: Seq<SceneNode>, parent: usize, at: int)
    requires
        0 <= at,
        at + forest_steps(nodes, parent, at).len() <= usize::MAX + 1,
    ensures
        run_hangs_well(forest_steps(nodes, parent, at), parent, at),
    decreases nodes,
{
    if nodes.len() > 0 {
        let steps = forest_steps(nodes, parent, at);
        let front = forest_steps(nodes.drop_last(), parent, at);
        let mid = at + front.len();
        let back = node_steps(nodes.last(), parent, mid);
        lemma_forest_run(nodes.drop_last(), parent, at);
        lemma_node_run(nodes.last(), parent, mid);
        assert forall|j: int| 0 <= j < steps.len() implies hangs_in_run(steps, parent, at, j) by {
            if j < front.len() {
                assert(hangs_in_run(front, parent, at, j));
            } else {
                assert(hangs_in_run(back, parent, mid, j - front.len()));
            }
        }
    }
}

/// A node without a mesh is a leaf of the plan, whatever children it has.
pub proof fn lemma_node_without_mesh(node: SceneNode, parent: usize, at: int)
    requires
        node.primitives is None,
    ensures
        node_steps(node, parent, at) == seq![
            Step { parent: Some(parent), spawn: Spawn::Node { tag: node.tag } },
        ],
{
}

/// Every plan that fits in memory is well formed.
pub proof fn lemma_scene_well_formed(nodes: Seq<SceneNode>)
    requires
        scene_steps(nodes).len() <= usize::MAX,
    ensures
        well_formed(scene_steps(nodes)),
{
    let plan = scene_steps(nodes);
    let under = forest_steps(nodes, 0, 1);
    lemma_forest_run(nodes, 0, 1);
    assert forall|i: int| 0 < i < plan.len() implies hangs_well(plan, i) by {
        assert(hangs_in_run(under, 0, 1, i - 1));
    }
}

/// Appends to `plan` the steps for `node` under the step at position `parent`.
fn push_node(node: &SceneNode, parent: usize, plan: &mut Vec<Step>)
    ensures
        final(plan)@ == old(plan)@ + node_steps(*node, parent, old(plan)@.len() as int),
    decreases node,
{
    let ghost before = plan@;
    let at = plan.len();
    let own = Step { parent: Some(parent), spawn: Spawn::Node { tag: node.tag } };
    plan.push(own);
    if let Some(count) = node.primitives {
        let mut index: usize = 0;
        while index < count
            invariant
                index <= count,
                plan@ == before + seq![own] + primitive_steps(node.tag, index as nat, at),
            decreases count - index,
        {
            plan.push(Step { parent: Some(at), spawn: Spawn::Primitive { tag: node.tag, index } });
            index += 1;
        }
        let ghost head = before + seq![own] + primitive_steps(node.tag, count as nat, at);
        let ghost below = at + 1 + count;
        let mut k: usize = 0;
        while k < node.children.len()
            invariant
                k <= node.children.len(),
                at == before.len(),
                head == before + seq![own] + primitive_steps(node.tag, count as nat, at),
                below == at + 1 + count,
                plan@ == head + forest_steps(node.children@.take(k as int), at, below),
            decreases node.children.len() - k,
        {
            assert(node.children@.take(k + 1).drop_last() =~= node.children@.take(k as int));
            push_node(&node.children[k], at, plan);
            k += 1;
        }
        assert(node.children@.take(k as int) =~= node.children@);
    }
}

/// Plans the scene for `nodes`: the root first, then every node with all that
/// is visited below it, in order.
pub fn plan_scene(nodes: &Vec<SceneNode>) -> (plan: Vec<Step>)
    ensures
        plan@ == scene_steps(nodes@),
        well_formed(plan@),
{
    let mut plan: Vec<Step> = Vec::new();
    plan.push(Step { parent: None, spawn: Spawn::Root });
    let ghost head = plan@;
    let mut k: usize = 0;
    while k < nodes.len()
        invariant
            k <= nodes.len(),
            head == seq![Step { parent: None, spawn: Spawn::Root }],
            plan@ == head + forest_steps(nodes@.take(k as int), 0, 1),
        decreases nodes.len() - k,
    {
        assert(nodes@.take(k + 1).drop_last() =~= nodes@.take(k as int));
        push_node(&nodes[k], 0, &mut plan);
        k += 1;
    }
    assert(nodes@.take(k as int) =~= nodes@);
    proof {
        assert(plan@.len() == plan.len());
        lemma_scene_well_formed(nodes@);
    }
    plan
}

} // verus!
