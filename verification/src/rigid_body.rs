//! Movable and immovable bodies, and positional collision resolution.
//!
//! A body wraps a box with the transform it will displace and a movability
//! flag. `collide` computes the minimum translation vector between two boxes
//! and splits it: half each when both bodies move, the whole vector when only
//! one does, nothing when neither does. Interpenetration of two immovable
//! bodies is left unresolved on purpose.
use crate::aabb::{find_mtv_spec, Aabb};
use crate::fx::{FX_HALF, FX_ONE};
use crate::transform::{chain_position, RawTransform, Transform, TransformArena, TransformNode};
use crate::vector::{vec3_add, vec3_scale, Vector3};
use vstd::prelude::*;

verus! {

/// A vertical gap smaller than this counts as a walkable step, not a wall.
pub const SLOPE_HEIGHT: i64 = 200000;

/// A collidable body: a box, the transform it displaces, and whether it moves.
pub struct RigidBody {
    pub aabb: Aabb,
    pub transform: Transform,
    pub movable: bool,
}

/// `nodes` with the position of node `t` moved by `dv`.
pub open spec fn nodes_translated(nodes: Seq<TransformNode>, t: int, dv: Vector3)
    -> Seq<TransformNode> {
    nodes.update(
        t,
        TransformNode {
            raw: RawTransform {
                position: vec3_add(nodes[t].raw.position, dv),
                ..nodes[t].raw
            },
            ..nodes[t]
        },
    )
}

/// What one `collide` call does to the arena: with no minimum translation
/// vector nothing moves; otherwise the vector is split by movability, half
/// and half when both bodies move.
pub open spec fn collide_effect(
    nodes: Seq<TransformNode>,
    s: RigidBody,
    o: RigidBody,
) -> Seq<TransformNode> {
    let mtv = find_mtv_spec(
        chain_position(nodes, s.aabb.center.idx as int),
        s.aabb.half_size,
        chain_position(nodes, o.aabb.center.idx as int),
        o.aabb.half_size,
        Some(SLOPE_HEIGHT),
    );
    match mtv {
        None => nodes,
        Some(v) => if s.movable && o.movable {
            nodes_translated(
                nodes_translated(nodes, s.transform.idx as int, vec3_scale(v, FX_HALF)),
                o.transform.idx as int,
                vec3_scale(v, (-FX_HALF) as i64),
            )
        } else if s.movable {
            nodes_translated(nodes, s.transform.idx as int, v)
        } else if o.movable {
            nodes_translated(nodes, o.transform.idx as int, vec3_scale(v, (-FX_ONE) as i64))
        } else {
            nodes
        },
    }
}

impl RigidBody {
    /// An immovable body covering `size` around `transform` shifted by
    /// `offset`: the box's center is a fresh node parented to `transform`.
    pub fn new(
        arena: &mut TransformArena,
        size: Vector3,
        offset: Vector3,
        transform: Transform,
    ) -> (r: RigidBody)
        requires
            old(arena).wf(),
            old(arena).valid(transform),
            size.x >= 0,
            size.y >= 0,
            size.z >= 0,
        ensures
            final(arena).wf(),
            final(arena).nodes@ == old(arena).nodes@.push(
                TransformNode {
                    raw: RawTransform {
                        position: vec3_add(Vector3 { x: 0, y: 0, z: 0 }, offset),
                        ..RawTransform::identity()
                    },
                    parent: Some(transform.idx),
                },
            ),
            r.aabb.center.idx == old(arena).nodes@.len(),
            r.aabb.half_size == vec3_scale(size, FX_HALF),
            r.transform == transform,
            !r.movable,
            final(arena).valid(r.aabb.center),
            final(arena).valid(transform),
    {
        let t = arena.new_transform();
        arena.translate_vec(t, offset);
        arena.set_parent(t, transform);
        proof {
            assert(final(arena).nodes@ =~= old(arena).nodes@.push(
                TransformNode {
                    raw: RawTransform {
                        position: vec3_add(Vector3 { x: 0, y: 0, z: 0 }, offset),
                        ..RawTransform::identity()
                    },
                    parent: Some(transform.idx),
                },
            ));
        }
        RigidBody { aabb: Aabb::new(t, size), transform, movable: false }
    }

    /// The same body, marked movable.
    pub fn as_movable(self) -> (r: RigidBody)
        ensures
            r == (RigidBody { movable: true, ..self }),
    {
        RigidBody { movable: true, ..self }
    }

    /// Whether collisions displace this body.
    pub fn movable(&self) -> (r: bool)
        ensures
            r == self.movable,
    {
        self.movable
    }

    /// Resolve the collision between `self` and `other`, if any: compute the
    /// minimum translation vector with the slope exception and move the
    /// movable participants by their shares of it.
    pub fn collide(&self, other: &RigidBody, arena: &mut TransformArena)
        requires
            old(arena).wf(),
            old(arena).valid(self.aabb.center),
            old(arena).valid(other.aabb.center),
            old(arena).valid(self.transform),
            old(arena).valid(other.transform),
        ensures
            final(arena).wf(),
            final(arena).nodes@ == collide_effect(old(arena).nodes@, *self, *other),
    {
        let mtv = self.aabb.find_mtv(arena, &other.aabb, Some(SLOPE_HEIGHT));
        if let Some(mtv) = mtv {
            if self.movable && other.movable {
                arena.translate_vec(self.transform, mtv.halved());
                arena.translate_vec(other.transform, mtv.scaled(-FX_HALF));
            } else if self.movable {
                arena.translate_vec(self.transform, mtv);
            } else if other.movable {
                arena.translate_vec(other.transform, mtv.scaled(-FX_ONE));
            }
        }
    }
}

} // verus!
