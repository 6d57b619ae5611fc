use bevy_godot4::erased_gd::{DynErasedGd, ErasedGd, TypedErasedGd};
use godot::classes::Node;
use godot::obj::InstanceId;
use std::fmt::Debug;

#[test]
fn from_id_keeps_instance_id() {
    let id = InstanceId::from_i64(42);
    let handle = ErasedGd::from_id(id);
    assert_eq!(handle.instance_id(), id);
}

#[test]
fn copies_name_the_same_object() {
    let id = InstanceId::from_i64(-7);
    let handle = ErasedGd::from_id(id);
    let copy = handle;
    let cloned = handle.clone();
    assert_eq!(copy.instance_id(), id);
    assert_eq!(cloned.instance_id(), id);
}

#[test]
fn to_typed_then_erase_type_round_trip() {
    let id = InstanceId::from_i64(1234);
    let typed: TypedErasedGd<Node> = ErasedGd::from_id(id).to_typed();
    assert_eq!(typed.erase_type().instance_id(), id);
}

#[test]
fn typed_from_id_matches_erased_from_id() {
    let id = InstanceId::from_i64(99);
    let typed = TypedErasedGd::<Node>::from_id(id);
    assert_eq!(typed.erase_type().instance_id(), ErasedGd::from_id(id).instance_id());
}

#[test]
fn typed_deref_reads_the_erased_handle() {
    let id = InstanceId::from_i64(5);
    let typed = TypedErasedGd::<Node>::from_id(id);
    let copy = typed.clone();
    assert_eq!(typed.instance_id(), id);
    assert_eq!(copy.instance_id(), id);
}

#[test]
fn dyn_from_id_round_trip() {
    let id = InstanceId::from_i64(77);
    let handle = DynErasedGd::<dyn Debug>::from_id(id);
    let copy = handle;
    assert_eq!(handle.instance_id(), id);
    assert_eq!(copy.clone().erase_type().instance_id(), id);
}

#[test]
fn distinct_ids_give_distinct_handles() {
    let a = ErasedGd::from_id(InstanceId::from_i64(1));
    let b = ErasedGd::from_id(InstanceId::from_i64(2));
    assert_ne!(a.instance_id(), b.instance_id());
}
