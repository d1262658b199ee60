//! Axis-aligned collision: overlap detection, the minimum translation
//! vector, the slope exception, and positional resolution.
use spatial_core::aabb::Aabb;
use spatial_core::fx::FX_ONE;
use spatial_core::rigid_body::{RigidBody, SLOPE_HEIGHT};
use spatial_core::transform::TransformArena;
use spatial_core::vector::Vector3;

fn unit_box(arena: &mut TransformArena, x: i64, y: i64, z: i64) -> Aabb {
    let t = arena.from_xyz(x, y, z);
    Aabb::new(t, Vector3::from_xyz(2 * FX_ONE, 2 * FX_ONE, 2 * FX_ONE))
}

#[test]
fn separated_boxes_do_not_collide() {
    // Centers three units apart with half-size one: no overlap on x.
    let mut arena = TransformArena::new();
    let a = unit_box(&mut arena, 0, 0, 0);
    let b = unit_box(&mut arena, 3 * FX_ONE, 0, 0);
    assert_eq!(a.find_mtv(&arena, &b, None), None);
    assert_eq!(a.find_mtv(&arena, &b, Some(SLOPE_HEIGHT)), None);
}

#[test]
fn overlap_yields_the_minimal_axis_push() {
    // Centers 1.5 apart on x with half-size one: the boxes overlap by 0.5
    // on x alone, so the push has x-magnitude 0.5 and zero elsewhere.
    let mut arena = TransformArena::new();
    let a = unit_box(&mut arena, 0, 0, 0);
    let b = unit_box(&mut arena, 1_500_000, 0, 0);
    let mtv = a.find_mtv(&arena, &b, None).unwrap();
    assert_eq!(mtv.x.abs(), 500_000);
    assert_eq!(mtv.y, 0);
    assert_eq!(mtv.z, 0);
}

#[test]
fn slope_overrides_the_axis_selection() {
    // Self's bottom sits at y = 0 and the other's top at y = 0.15; the
    // horizontal overlap of 0.1 would win the axis selection, but with a
    // slope height of 0.2 the answer is the pure vertical step of 0.15.
    let mut arena = TransformArena::new();
    let a = unit_box(&mut arena, 0, FX_ONE, 0);
    let b = unit_box(&mut arena, 1_900_000, -850_000, 0);
    let without = a.find_mtv(&arena, &b, None).unwrap();
    assert_eq!(without.x.abs(), 100_000);
    assert_eq!(without.y, 0);
    let with = a.find_mtv(&arena, &b, Some(200_000)).unwrap();
    assert_eq!(with, Vector3::from_xyz(0, 150_000, 0));
}

#[test]
fn exactly_touching_boxes_push_by_zero() {
    // Centers two units apart with half-size one: the faces touch exactly,
    // which counts as overlapping with a zero-magnitude push.
    let mut arena = TransformArena::new();
    let a = unit_box(&mut arena, 0, 0, 0);
    let b = unit_box(&mut arena, 2 * FX_ONE, 0, 0);
    assert_eq!(a.find_mtv(&arena, &b, None), Some(Vector3::zero()));
}

#[test]
fn containment_on_every_axis_yields_nothing() {
    // A small box fully inside a big one: no axis offers a finite witness
    // push, and the detector reports no vector.
    let mut arena = TransformArena::new();
    let small = unit_box(&mut arena, 0, 0, 0);
    let t = arena.from_xyz(0, 0, 0);
    let big = Aabb::new(t, Vector3::from_xyz(10 * FX_ONE, 10 * FX_ONE, 10 * FX_ONE));
    assert_eq!(small.find_mtv(&arena, &big, None), None);
}

#[test]
fn box_center_follows_its_parent() {
    // The box's center node is parented to the body transform, so moving
    // the body moves the box out of contact.
    let mut arena = TransformArena::new();
    let a = unit_box(&mut arena, 0, 0, 0);
    let body = arena.from_xyz(1_500_000, 0, 0);
    let center = arena.new_transform();
    arena.set_parent(center, body);
    let b = Aabb::new(center, Vector3::from_xyz(2 * FX_ONE, 2 * FX_ONE, 2 * FX_ONE));
    assert!(a.find_mtv(&arena, &b, None).is_some());
    arena.translate(body, 5 * FX_ONE, 0, 0);
    assert_eq!(a.find_mtv(&arena, &b, None), None);
}

#[test]
fn two_movable_bodies_split_the_push() {
    // The push between the boxes is exactly (1, 0, 0): each movable body
    // moves by half of it, in opposite directions.
    let mut arena = TransformArena::new();
    let ta = arena.from_xyz(0, 0, 0);
    let tb = arena.from_xyz(-FX_ONE, 0, 0);
    let size = Vector3::from_xyz(2 * FX_ONE, 2 * FX_ONE, 2 * FX_ONE);
    let a = RigidBody::new(&mut arena, size, Vector3::zero(), ta).as_movable();
    let b = RigidBody::new(&mut arena, size, Vector3::zero(), tb).as_movable();
    a.collide(&b, &mut arena);
    assert_eq!(arena.position(ta), Vector3::from_xyz(500_000, 0, 0));
    assert_eq!(arena.position(tb), Vector3::from_xyz(-1_500_000, 0, 0));
}

#[test]
fn only_the_movable_body_moves() {
    let mut arena = TransformArena::new();
    let ta = arena.from_xyz(0, 0, 0);
    let tb = arena.from_xyz(-FX_ONE, 0, 0);
    let size = Vector3::from_xyz(2 * FX_ONE, 2 * FX_ONE, 2 * FX_ONE);
    let a = RigidBody::new(&mut arena, size, Vector3::zero(), ta).as_movable();
    let b = RigidBody::new(&mut arena, size, Vector3::zero(), tb);
    assert!(a.movable());
    assert!(!b.movable());
    a.collide(&b, &mut arena);
    assert_eq!(arena.position(ta), Vector3::from_xyz(FX_ONE, 0, 0));
    assert_eq!(arena.position(tb), Vector3::from_xyz(-FX_ONE, 0, 0));
}

#[test]
fn the_other_movable_body_moves_backwards() {
    let mut arena = TransformArena::new();
    let ta = arena.from_xyz(0, 0, 0);
    let tb = arena.from_xyz(-FX_ONE, 0, 0);
    let size = Vector3::from_xyz(2 * FX_ONE, 2 * FX_ONE, 2 * FX_ONE);
    let a = RigidBody::new(&mut arena, size, Vector3::zero(), ta);
    let b = RigidBody::new(&mut arena, size, Vector3::zero(), tb).as_movable();
    a.collide(&b, &mut arena);
    assert_eq!(arena.position(ta), Vector3::from_xyz(0, 0, 0));
    assert_eq!(arena.position(tb), Vector3::from_xyz(-2 * FX_ONE, 0, 0));
}

#[test]
fn two_immovable_bodies_stay_interpenetrated() {
    // Neither body moves: interpenetration of immovables is left alone.
    let mut arena = TransformArena::new();
    let ta = arena.from_xyz(0, 0, 0);
    let tb = arena.from_xyz(-FX_ONE, 0, 0);
    let size = Vector3::from_xyz(2 * FX_ONE, 2 * FX_ONE, 2 * FX_ONE);
    let a = RigidBody::new(&mut arena, size, Vector3::zero(), ta);
    let b = RigidBody::new(&mut arena, size, Vector3::zero(), tb);
    a.collide(&b, &mut arena);
    assert_eq!(arena.position(ta), Vector3::from_xyz(0, 0, 0));
    assert_eq!(arena.position(tb), Vector3::from_xyz(-FX_ONE, 0, 0));
}

#[test]
fn separated_bodies_are_left_alone_by_collide() {
    let mut arena = TransformArena::new();
    let ta = arena.from_xyz(0, 0, 0);
    let tb = arena.from_xyz(9 * FX_ONE, 0, 0);
    let size = Vector3::from_xyz(2 * FX_ONE, 2 * FX_ONE, 2 * FX_ONE);
    let a = RigidBody::new(&mut arena, size, Vector3::zero(), ta).as_movable();
    let b = RigidBody::new(&mut arena, size, Vector3::zero(), tb).as_movable();
    a.collide(&b, &mut arena);
    assert_eq!(arena.position(ta), Vector3::from_xyz(0, 0, 0));
    assert_eq!(arena.position(tb), Vector3::from_xyz(9 * FX_ONE, 0, 0));
}

#[test]
fn step_over_uses_the_rigid_body_slope() {
    // A walking body meets a lip 0.15 high with the built-in slope height
    // of 0.2: the resolution lifts it instead of pushing it back.
    let mut arena = TransformArena::new();
    let ta = arena.from_xyz(0, FX_ONE, 0);
    let tb = arena.from_xyz(1_900_000, -850_000, 0);
    let size = Vector3::from_xyz(2 * FX_ONE, 2 * FX_ONE, 2 * FX_ONE);
    let a = RigidBody::new(&mut arena, size, Vector3::zero(), ta).as_movable();
    let b = RigidBody::new(&mut arena, size, Vector3::zero(), tb);
    a.collide(&b, &mut arena);
    assert_eq!(arena.position(ta), Vector3::from_xyz(0, 1_150_000, 0));
    assert_eq!(arena.position(tb), Vector3::from_xyz(1_900_000, -850_000, 0));
}
