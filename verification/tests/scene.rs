use scene_demos::scene::{plan_scene, SceneNode, Spawn, Step};

fn leaf(tag: usize, primitives: Option<usize>) -> SceneNode {
    SceneNode { tag, primitives, children: Vec::new() }
}

fn node(tag: usize, primitives: Option<usize>, children: Vec<SceneNode>) -> SceneNode {
    SceneNode { tag, primitives, children }
}

fn root() -> Step {
    Step { parent: None, spawn: Spawn::Root }
}

fn node_step(parent: usize, tag: usize) -> Step {
    Step { parent: Some(parent), spawn: Spawn::Node { tag } }
}

fn primitive_step(parent: usize, tag: usize, index: usize) -> Step {
    Step { parent: Some(parent), spawn: Spawn::Primitive { tag, index } }
}

#[test]
fn empty_scene_is_the_root_alone() {
    assert_eq!(plan_scene(&Vec::new()), vec![root()]);
}

#[test]
fn node_without_mesh_is_one_entity() {
    assert_eq!(plan_scene(&vec![leaf(5, None)]), vec![root(), node_step(0, 5)]);
}

#[test]
fn children_of_a_node_without_mesh_are_skipped() {
    let nodes = vec![node(1, None, vec![leaf(2, Some(3)), leaf(3, None)])];
    assert_eq!(plan_scene(&nodes), vec![root(), node_step(0, 1)]);
}

#[test]
fn mesh_without_primitives_still_visits_children() {
    let nodes = vec![node(1, Some(0), vec![leaf(2, None)])];
    assert_eq!(plan_scene(&nodes), vec![root(), node_step(0, 1), node_step(1, 2)]);
}

#[test]
fn primitives_come_before_child_nodes() {
    let nodes = vec![node(7, Some(2), vec![leaf(8, Some(1)), leaf(9, None)])];
    assert_eq!(
        plan_scene(&nodes),
        vec![
            root(),
            node_step(0, 7),
            primitive_step(1, 7, 0),
            primitive_step(1, 7, 1),
            node_step(1, 8),
            primitive_step(4, 8, 0),
            node_step(1, 9),
        ]
    );
}

#[test]
fn top_level_nodes_hang_under_the_root_in_order() {
    let nodes = vec![leaf(10, Some(1)), leaf(11, None), leaf(12, Some(2))];
    assert_eq!(
        plan_scene(&nodes),
        vec![
            root(),
            node_step(0, 10),
            primitive_step(1, 10, 0),
            node_step(0, 11),
            node_step(0, 12),
            primitive_step(4, 12, 0),
            primitive_step(4, 12, 1),
        ]
    );
}

#[test]
fn deep_chain_keeps_each_parent_one_level_up() {
    let nodes = vec![node(
        0,
        Some(1),
        vec![node(1, Some(0), vec![node(2, Some(1), vec![leaf(3, None)])])],
    )];
    assert_eq!(
        plan_scene(&nodes),
        vec![
            root(),
            node_step(0, 0),
            primitive_step(1, 0, 0),
            node_step(1, 1),
            node_step(3, 2),
            primitive_step(4, 2, 0),
            node_step(4, 3),
        ]
    );
}

#[test]
fn the_same_tag_may_be_planned_twice() {
    let nodes = vec![node(4, Some(1), vec![leaf(4, Some(1))]), leaf(4, Some(1))];
    assert_eq!(
        plan_scene(&nodes),
        vec![
            root(),
            node_step(0, 4),
            primitive_step(1, 4, 0),
            node_step(1, 4),
            primitive_step(3, 4, 0),
            node_step(0, 4),
            primitive_step(5, 4, 0),
        ]
    );
}

#[test]
fn every_step_hangs_under_an_earlier_step() {
    let nodes = vec![
        node(1, Some(2), vec![node(2, Some(1), vec![leaf(3, Some(3))]), leaf(4, None)]),
        node(5, None, vec![leaf(6, Some(1))]),
        node(7, Some(0), vec![leaf(8, Some(2))]),
    ];
    let plan = plan_scene(&nodes);
    assert_eq!(plan.len(), 1 + (1 + 2) + (1 + 1) + (1 + 3) + 1 + 1 + 1 + (1 + 2));
    assert_eq!(plan[0], root());
    for (i, step) in plan.iter().enumerate().skip(1) {
        let parent = step.parent.unwrap();
        assert!(parent < i);
        match step.spawn {
            Spawn::Root => panic!("a second root at {}", i),
            Spawn::Node { .. } => assert!(!matches!(plan[parent].spawn, Spawn::Primitive { .. })),
            Spawn::Primitive { tag, .. } => assert_eq!(plan[parent].spawn, Spawn::Node { tag }),
        }
    }
}
