use bevy::ecs::entity::Entity;
use bevy_godot4::components::plan_component_merges;

#[test]
fn children_with_found_parents_are_merged_in_order() {
    let c1 = Entity::from_raw(1);
    let c2 = Entity::from_raw(2);
    let c3 = Entity::from_raw(3);
    let p1 = Entity::from_raw(10);
    let p2 = Entity::from_raw(20);
    let plan = plan_component_merges(&vec![(c1, Some(p1)), (c2, None), (c3, Some(p2))]);
    assert_eq!(plan, vec![(c1, p1), (c3, p2)]);
}

#[test]
fn no_children_no_merges() {
    assert!(plan_component_merges(&Vec::new()).is_empty());
}

#[test]
fn children_without_parents_are_left_alone() {
    let plan = plan_component_merges(&vec![(Entity::from_raw(4), None), (Entity::from_raw(5), None)]);
    assert!(plan.is_empty());
}

#[test]
fn several_children_may_share_a_parent() {
    let p = Entity::from_raw(100);
    let plan = plan_component_merges(&vec![(Entity::from_raw(1), Some(p)), (Entity::from_raw(2), Some(p))]);
    assert_eq!(plan, vec![(Entity::from_raw(1), p), (Entity::from_raw(2), p)]);
}
