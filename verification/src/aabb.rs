//! Axis-aligned bounding boxes and the minimum translation vector.
//!
//! A box is bound to a transform node (its center inherits every position up
//! the parent chain; rotation and scale are deliberately ignored) plus a fixed
//! half-size. `find_mtv` computes the smallest single-axis push that separates
//! two overlapping boxes, with a slope exception that turns a small vertical
//! gap into a pure vertical step. All arithmetic is exact fixed point, so the
//! contract pins the result to the unit.
use crate::fx::{abs_fx, add_fx, fx_abs, fxa, fxs, sub_fx};
use crate::transform::{chain_position, Transform, TransformArena};
use crate::vector::{vec3_axis, vec3_scale, Vector2, Vector3};
use vstd::prelude::*;

verus! {

/// What two intervals on one axis do to each other.
#[derive(Clone, Copy, Debug, PartialEq, Eq, Structural)]
pub enum AxisOverlap {
    /// The intervals do not touch: the boxes cannot intersect.
    Disjoint,
    /// The intervals overlap and this signed push along the axis separates them.
    Push(i64),
    /// One interval contains the other: overlap without a finite witness push.
    Wide,
}

/// The overlap of the intervals `a` and `b`, each given as (low, high).
/// Exactly touching intervals count as overlapping with a zero push.
pub open spec fn one_d_mtv_spec(a: Vector2, b: Vector2) -> AxisOverlap {
    if a.y < b.x || a.x > b.y {
        AxisOverlap::Disjoint
    } else if a.y < b.y && a.x < b.x {
        AxisOverlap::Push(fxs(b.x, a.y))
    } else if a.y > b.y && a.x > b.x {
        AxisOverlap::Push(fxs(b.y, a.x))
    } else {
        AxisOverlap::Wide
    }
}

/// The interval a box covers on axis `i`: center minus and plus the half-size.
pub open spec fn axis_interval(c: Vector3, h: Vector3, i: int) -> Vector2 {
    Vector2 { x: fxs(vec3_axis(c, i), vec3_axis(h, i)), y: fxa(vec3_axis(c, i), vec3_axis(h, i)) }
}

/// The overlap of two boxes on axis `i`.
pub open spec fn axis_overlap(sc: Vector3, sh: Vector3, oc: Vector3, oh: Vector3, i: int)
    -> AxisOverlap {
    one_d_mtv_spec(axis_interval(sc, sh, i), axis_interval(oc, oh, i))
}

/// Fold one axis into the best candidate so far: a finite push strictly
/// smaller in magnitude than the best seen replaces it; earlier axes win ties.
pub open spec fn pick_axis(best: (i64, Option<Vector3>), ov: AxisOverlap, i: int)
    -> (i64, Option<Vector3>) {
    match ov {
        AxisOverlap::Push(m) => if fx_abs(m as int) < best.0 {
            (
                fx_abs(m as int) as i64,
                Some(crate::vector::vec3_with_axis(Vector3 { x: 0, y: 0, z: 0 }, i, m)),
            )
        } else {
            best
        },
        _ => best,
    }
}

/// The smallest-magnitude single-axis push separating the two boxes: `None`
/// when some axis is disjoint (the boxes do not intersect) and when each axis
/// only reports containment.
pub open spec fn mtv_candidate(sc: Vector3, sh: Vector3, oc: Vector3, oh: Vector3)
    -> Option<Vector3> {
    let o0 = axis_overlap(sc, sh, oc, oh, 0);
    let o1 = axis_overlap(sc, sh, oc, oh, 1);
    let o2 = axis_overlap(sc, sh, oc, oh, 2);
    if o0 is Disjoint || o1 is Disjoint || o2 is Disjoint {
        None
    } else {
        pick_axis(pick_axis(pick_axis((i64::MAX, None), o0, 0), o1, 1), o2, 2).1
    }
}

/// The full minimum translation vector: the best axis push, except that with a
/// slope height set, a vertical gap smaller than it is answered by the exact
/// vertical step instead, whatever the axis selection said.
pub open spec fn find_mtv_spec(
    sc: Vector3,
    sh: Vector3,
    oc: Vector3,
    oh: Vector3,
    slope_height: Option<i64>,
) -> Option<Vector3> {
    let cand = mtv_candidate(sc, sh, oc, oh);
    if cand is None {
        None
    } else {
        match slope_height {
            None => cand,
            Some(height) => {
                let slf_bot = fxs(sc.y, sh.y);
                let oth_top = fxa(oc.y, oh.y);
                let slf_top = fxa(sc.y, sh.y);
                let oth_bot = fxs(oc.y, oh.y);
                if slf_bot < oth_top && fxa(slf_bot, height) > oth_top {
                    Some(Vector3 { x: 0, y: fxs(oth_top, slf_bot), z: 0 })
                } else if oth_bot < slf_top && fxa(oth_bot, height) > slf_top {
                    Some(Vector3 { x: 0, y: fxs(oth_bot, slf_top), z: 0 })
                } else {
                    cand
                }
            },
        }
    }
}

/// A box bound to a transform's world position plus a fixed half-size.
#[derive(Clone, Copy, Debug, PartialEq, Eq, Structural)]
pub struct Aabb {
    pub center: Transform,
    pub half_size: Vector3,
}

/// The overlap of the intervals `a` and `b`, each given as (low, high).
fn one_dimensional_mtv(a: Vector2, b: Vector2) -> (r: AxisOverlap)
    ensures
        r == one_d_mtv_spec(a, b),
{
    if a.y < b.x || a.x > b.y {
        AxisOverlap::Disjoint
    } else if a.y < b.y && a.x < b.x {
        AxisOverlap::Push(sub_fx(b.x, a.y))
    } else if a.y > b.y && a.x > b.x {
        AxisOverlap::Push(sub_fx(b.y, a.x))
    } else {
        AxisOverlap::Wide
    }
}

impl Aabb {
    /// A box centered on `center` covering `size` in each direction: the
    /// half-size is half of `size`, componentwise, and never negative.
    pub fn new(center: Transform, size: Vector3) -> (r: Aabb)
        requires
            size.x >= 0,
            size.y >= 0,
            size.z >= 0,
        ensures
            r.center == center,
            r.half_size == vec3_scale(size, crate::fx::FX_HALF),
            r.half_size.x >= 0,
            r.half_size.y >= 0,
            r.half_size.z >= 0,
    {
        Aabb { center, half_size: size.halved() }
    }

    /// The minimum translation vector that pushes `self` out of `other`, or
    /// `None` when the boxes do not intersect (or only touch by containment
    /// on every axis). The centers are read through the parent chains of the
    /// arena; with `slope_height` set, a small vertical gap is answered by
    /// the exact vertical step.
    #[verifier::loop_isolation(false)]
    pub fn find_mtv(
        &self,
        arena: &TransformArena,
        other: &Aabb,
        slope_height: Option<i64>,
    ) -> (r: Option<Vector3>)
        requires
            arena.wf(),
            arena.valid(self.center),
            arena.valid(other.center),
        ensures
            r == find_mtv_spec(
                chain_position(arena.nodes@, self.center.idx as int),
                self.half_size,
                chain_position(arena.nodes@, other.center.idx as int),
                other.half_size,
                slope_height,
            ),
    {
        let self_center = arena.world_position(self.center);
        let other_center = arena.world_position(other.center);

        let mut min: i64 = i64::MAX;
        let mut vector: Option<Vector3> = None;

        let mut i: usize = 0;
        while i < 3
            invariant
                0 <= i <= 3,
                forall|j: int|
                    0 <= j < i ==> !(axis_overlap(
                        self_center,
                        self.half_size,
                        other_center,
                        other.half_size,
                        j,
                    ) is Disjoint),
                (min, vector) == fold_axes(
                    self_center,
                    self.half_size,
                    other_center,
                    other.half_size,
                    i as int,
                ),
            decreases 3 - i,
        {
            let slf = Vector2 {
                x: sub_fx(self_center.get(i), self.half_size.get(i)),
                y: add_fx(self_center.get(i), self.half_size.get(i)),
            };
            let oth = Vector2 {
                x: sub_fx(other_center.get(i), other.half_size.get(i)),
                y: add_fx(other_center.get(i), other.half_size.get(i)),
            };
            let overlap = one_dimensional_mtv(slf, oth);
            proof {
                assert(slf == axis_interval(self_center, self.half_size, i as int));
                assert(oth == axis_interval(other_center, other.half_size, i as int));
            }
            match overlap {
                AxisOverlap::Disjoint => {
                    proof {
                        if i == 0 {
                            assert(axis_overlap(
                                self_center,
                                self.half_size,
                                other_center,
                                other.half_size,
                                0,
                            ) is Disjoint);
                        } else if i == 1 {
                            assert(axis_overlap(
                                self_center,
                                self.half_size,
                                other_center,
                                other.half_size,
                                1,
                            ) is Disjoint);
                        } else {
                            assert(axis_overlap(
                                self_center,
                                self.half_size,
                                other_center,
                                other.half_size,
                                2,
                            ) is Disjoint);
                        }
                    }
                    return None;
                },
                AxisOverlap::Push(m) => {
                    let a = abs_fx(m);
                    if a < min {
                        let mut vec = Vector3 { x: 0, y: 0, z: 0 };
                        vec.set(i, m);
                        vector = Some(vec);
                        min = a;
                    }
                },
                AxisOverlap::Wide => {},
            }
            i = i + 1;
        }

        proof {
            reveal_with_fuel(fold_axes, 4);
            assert(mtv_candidate(self_center, self.half_size, other_center, other.half_size)
                == vector);
        }

        if vector.is_none() {
            return None;
        }

        if let Some(height) = slope_height {
            let slf_bot = sub_fx(self_center.y, self.half_size.y);
            let oth_top = add_fx(other_center.y, other.half_size.y);
            if slf_bot < oth_top && add_fx(slf_bot, height) > oth_top {
                return Some(Vector3 { x: 0, y: sub_fx(oth_top, slf_bot), z: 0 });
            }
            let slf_top = add_fx(self_center.y, self.half_size.y);
            let oth_bot = sub_fx(other_center.y, other.half_size.y);
            if oth_bot < slf_top && add_fx(oth_bot, height) > slf_top {
                return Some(Vector3 { x: 0, y: sub_fx(oth_bot, slf_top), z: 0 });
            }
        }

        vector
    }
}

/// Boxes disjoint on any single world axis do not intersect: whatever the
/// other axes and the slope setting say, there is no minimum translation
/// vector between them.
pub proof fn lemma_separated_boxes_have_no_mtv(
    sc: Vector3,
    sh: Vector3,
    oc: Vector3,
    oh: Vector3,
    slope_height: Option<i64>,
    i: int,
)
    requires
        0 <= i < 3,
        axis_overlap(sc, sh, oc, oh, i) is Disjoint,
    ensures
        find_mtv_spec(sc, sh, oc, oh, slope_height) is None,
{
}

/// The best-candidate fold over the first `n` axes.
pub open spec fn fold_axes(sc: Vector3, sh: Vector3, oc: Vector3, oh: Vector3, n: int)
    -> (i64, Option<Vector3>)
    decreases n,
{
    if n <= 0 {
        (i64::MAX, None)
    } else {
        pick_axis(fold_axes(sc, sh, oc, oh, n - 1), axis_overlap(sc, sh, oc, oh, n - 1), n - 1)
    }
}

} // verus!

