//! The parented affine transform graph.
//!
//! A `RawTransform` holds a node's own position, uniform scale and Euler
//! rotation. Nodes live in a `TransformArena` and refer to their parent by
//! handle; a parent's handle is always smaller than its child's, which rules
//! out cycles and bounds every recursion. The composed world matrix, its
//! reverse, and the rotation-only normal matrix are each pinned to an exact
//! spec-level composition; the local order is translate, then the z, x and y
//! rotations, then the uniform scale.
use crate::fx::{add_fx, fxn, mul_fx, neg_fx, recip_fx, FX_ONE};
use crate::matrix::{
    mat_apply_vec3, mat_ident, mat_mul, mat_rot_x, mat_rot_y, mat_rot_z, mat_scale, mat_translate,
    Matrix,
};
use crate::vector::{vec3_add, vec3_neg, Vector3};
use vstd::prelude::*;

verus! {

/// A node's own placement: position, uniform scale and Euler rotation.
#[derive(Clone, Copy, Debug, PartialEq, Eq, Structural)]
pub struct RawTransform {
    pub position: Vector3,
    pub scale: i64,
    pub rotation: Vector3,
}

/// The local matrix: translate, rotate about z, x, then y, then scale.
pub open spec fn raw_local_matrix(rt: RawTransform) -> Matrix {
    mat_mul(
        mat_mul(
            mat_mul(
                mat_mul(mat_translate(rt.position), mat_rot_z(rt.rotation.z as int)),
                mat_rot_x(rt.rotation.x as int),
            ),
            mat_rot_y(rt.rotation.y as int),
        ),
        mat_scale(rt.scale),
    )
}

/// The reverse of the local matrix: the inverse factors in reverse order.
pub open spec fn raw_reverse_matrix(rt: RawTransform) -> Matrix {
    mat_mul(
        mat_mul(
            mat_mul(
                mat_mul(
                    mat_scale(crate::fx::fx_recip(rt.scale as int) as i64),
                    mat_rot_y(fxn(rt.rotation.y) as int),
                ),
                mat_rot_x(fxn(rt.rotation.x) as int),
            ),
            mat_rot_z(fxn(rt.rotation.z) as int),
        ),
        mat_translate(vec3_neg(rt.position)),
    )
}

/// The rotation-only composition, for transforming surface normals.
pub open spec fn raw_normal_matrix(rt: RawTransform) -> Matrix {
    mat_mul(
        mat_mul(mat_rot_z(rt.rotation.z as int), mat_rot_x(rt.rotation.x as int)),
        mat_rot_y(rt.rotation.y as int),
    )
}

/// The facing direction: the rotated negative z axis.
pub open spec fn raw_direction(rt: RawTransform) -> Vector3 {
    mat_apply_vec3(
        mat_mul(
            mat_mul(mat_rot_y(rt.rotation.y as int), mat_rot_x(rt.rotation.x as int)),
            mat_rot_z(rt.rotation.z as int),
        ),
        Vector3 { x: 0, y: 0, z: (-FX_ONE) as i64 },
    )
}

impl RawTransform {
    /// The identity placement: at the origin, unrotated, at unit scale.
    pub fn new() -> (r: RawTransform)
        ensures
            r == RawTransform::identity(),
    {
        RawTransform {
            position: Vector3 { x: 0, y: 0, z: 0 },
            scale: FX_ONE,
            rotation: Vector3 { x: 0, y: 0, z: 0 },
        }
    }

    /// The identity placement, as a spec value.
    pub open spec fn identity() -> RawTransform {
        RawTransform {
            position: Vector3 { x: 0, y: 0, z: 0 },
            scale: FX_ONE,
            rotation: Vector3 { x: 0, y: 0, z: 0 },
        }
    }

    /// The placement translated to `(x, y, z)`.
    pub fn from_xyz(x: i64, y: i64, z: i64) -> (r: RawTransform)
        ensures
            r == (RawTransform { position: Vector3 { x, y, z }, ..RawTransform::identity() }),
    {
        let mut t = RawTransform::new();
        t.translate(x, y, z);
        t
    }

    /// The placement translated to `(x, y, z)` and turned by `h` about y and
    /// `v` about x.
    pub fn from_xyz_hv(x: i64, y: i64, z: i64, h: i64, v: i64) -> (r: RawTransform)
        ensures
            r == (RawTransform {
                position: Vector3 { x, y, z },
                scale: FX_ONE,
                rotation: Vector3 { x: v, y: h, z: 0 },
            }),
    {
        let mut t = RawTransform::new();
        t.translate(x, y, z);
        t.rotate_h(h);
        t.rotate_v(v);
        t
    }

    /// The node's own position.
    pub fn position(&self) -> (r: Vector3)
        ensures
            r == self.position,
    {
        self.position
    }

    /// The facing direction of this placement.
    pub fn direction(&self) -> (r: Vector3)
        ensures
            r == raw_direction(*self),
    {
        let m = Matrix::rotation_y(self.rotation.y).mul(&Matrix::rotation_x(self.rotation.x)).mul(
            &Matrix::rotation_z(self.rotation.z),
        );
        m.mul_vec3(&Vector3 { x: 0, y: 0, z: -FX_ONE })
    }

    /// Move the position by `(dx, dy, dz)`.
    pub fn translate(&mut self, dx: i64, dy: i64, dz: i64)
        ensures
            *final(self) == (RawTransform {
                position: vec3_add(old(self).position, Vector3 { x: dx, y: dy, z: dz }),
                ..*old(self)
            }),
    {
        self.position = self.position.plus(&Vector3 { x: dx, y: dy, z: dz });
    }

    /// Move the position by the vector `dv`.
    pub fn translate_vec(&mut self, dv: Vector3)
        ensures
            *final(self) == (RawTransform { position: vec3_add(old(self).position, dv), ..*old(
                self,
            ) }),
    {
        self.position = self.position.plus(&dv);
    }

    /// Turn by `dh` about the y axis; angles accumulate unnormalized.
    pub fn rotate_h(&mut self, dh: i64)
        ensures
            *final(self) == (RawTransform {
                rotation: vec3_add(old(self).rotation, Vector3 { x: 0, y: dh, z: 0 }),
                ..*old(self)
            }),
    {
        self.rotation = self.rotation.plus(&Vector3 { x: 0, y: dh, z: 0 });
    }

    /// Turn by `dv` about the x axis; angles accumulate unnormalized.
    pub fn rotate_v(&mut self, dv: i64)
        ensures
            *final(self) == (RawTransform {
                rotation: vec3_add(old(self).rotation, Vector3 { x: dv, y: 0, z: 0 }),
                ..*old(self)
            }),
    {
        self.rotation = self.rotation.plus(&Vector3 { x: dv, y: 0, z: 0 });
    }

    /// Turn by `rot` about all three axes; angles accumulate unnormalized.
    pub fn rotate(&mut self, rot: Vector3)
        ensures
            *final(self) == (RawTransform { rotation: vec3_add(old(self).rotation, rot), ..*old(
                self,
            ) }),
    {
        self.rotation = self.rotation.plus(&rot);
    }

    /// Multiply the uniform scale by `scale_factor`.
    pub fn scale(&mut self, scale_factor: i64)
        ensures
            *final(self) == (RawTransform {
                scale: crate::fx::fxm(old(self).scale, scale_factor),
                ..*old(self)
            }),
    {
        self.scale = mul_fx(self.scale, scale_factor);
    }

    /// The local matrix of this placement alone.
    pub fn matrix(&self) -> (r: Matrix)
        ensures
            r == raw_local_matrix(*self),
    {
        Matrix::translate(self.position).mul(&Matrix::rotation_z(self.rotation.z)).mul(
            &Matrix::rotation_x(self.rotation.x),
        ).mul(&Matrix::rotation_y(self.rotation.y)).mul(&Matrix::scale(self.scale))
    }

    /// The reverse of the local matrix.
    pub fn reverse_matrix(&self) -> (r: Matrix)
        ensures
            r == raw_reverse_matrix(*self),
    {
        Matrix::scale(recip_fx(self.scale)).mul(&Matrix::rotation_y(neg_fx(self.rotation.y))).mul(
            &Matrix::rotation_x(neg_fx(self.rotation.x)),
        ).mul(&Matrix::rotation_z(neg_fx(self.rotation.z))).mul(
            &Matrix::translate(self.position.negated()),
        )
    }

    /// The rotation-only matrix of this placement.
    pub fn normal_matrix(&self) -> (r: Matrix)
        ensures
            r == raw_normal_matrix(*self),
    {
        Matrix::rotation_z(self.rotation.z).mul(&Matrix::rotation_x(self.rotation.x)).mul(
            &Matrix::rotation_y(self.rotation.y),
        )
    }
}

/// One node of the transform graph: a placement and an optional parent.
#[derive(Clone, Copy, Debug, PartialEq, Eq, Structural)]
pub struct TransformNode {
    pub raw: RawTransform,
    pub parent: Option<usize>,
}

/// A handle to a node of a `TransformArena`.
#[derive(Clone, Copy, Debug, PartialEq, Eq, Structural)]
pub struct Transform {
    pub idx: usize,
}

/// Every parent handle points at an earlier node: the graph is acyclic and
/// every recursion over parents terminates.
pub open spec fn arena_wf(nodes: Seq<TransformNode>) -> bool {
    forall|i: int|
        0 <= i < nodes.len() ==> (nodes[i].parent is Some ==> nodes[i].parent.unwrap() < i)
}

/// The composed world matrix of node `i`: the parent's world matrix times the
/// node's local matrix, or the local matrix alone at a root.
pub open spec fn world_matrix(nodes: Seq<TransformNode>, i: int) -> Matrix
    decreases i,
{
    match nodes[i].parent {
        None => raw_local_matrix(nodes[i].raw),
        Some(p) => if 0 <= i && p < i {
            mat_mul(world_matrix(nodes, p as int), raw_local_matrix(nodes[i].raw))
        } else {
            raw_local_matrix(nodes[i].raw)
        },
    }
}

/// The composed reverse matrix of node `i`: the node's reverse times the
/// parent's reverse, in reverse order.
pub open spec fn world_reverse_matrix(nodes: Seq<TransformNode>, i: int) -> Matrix
    decreases i,
{
    match nodes[i].parent {
        None => raw_reverse_matrix(nodes[i].raw),
        Some(p) => if 0 <= i && p < i {
            mat_mul(raw_reverse_matrix(nodes[i].raw), world_reverse_matrix(nodes, p as int))
        } else {
            raw_reverse_matrix(nodes[i].raw)
        },
    }
}

/// The composed rotation-only matrix of node `i`.
pub open spec fn world_normal_matrix(nodes: Seq<TransformNode>, i: int) -> Matrix
    decreases i,
{
    match nodes[i].parent {
        None => raw_normal_matrix(nodes[i].raw),
        Some(p) => if 0 <= i && p < i {
            mat_mul(world_normal_matrix(nodes, p as int), raw_normal_matrix(nodes[i].raw))
        } else {
            raw_normal_matrix(nodes[i].raw)
        },
    }
}

/// The summed positions along the parent chain of node `i`: the world-space
/// center used for axis-aligned collision, which ignores rotation and scale.
pub open spec fn chain_position(nodes: Seq<TransformNode>, i: int) -> Vector3
    decreases i,
{
    match nodes[i].parent {
        None => nodes[i].raw.position,
        Some(p) => if 0 <= i && p < i {
            vec3_add(chain_position(nodes, p as int), nodes[i].raw.position)
        } else {
            nodes[i].raw.position
        },
    }
}

/// The arena owning every transform node of a scene.
pub struct TransformArena {
    pub nodes: Vec<TransformNode>,
}

impl TransformArena {
    /// The arena's nodes, as a sequence.
    pub open spec fn view_nodes(&self) -> Seq<TransformNode> {
        self.nodes@
    }

    /// Whether every parent handle points at an earlier node.
    pub open spec fn wf(&self) -> bool {
        arena_wf(self.nodes@)
    }

    /// Whether `t` addresses a node of this arena.
    pub open spec fn valid(&self, t: Transform) -> bool {
        t.idx < self.nodes@.len()
    }

    /// An empty arena.
    pub fn new() -> (r: TransformArena)
        ensures
            r.nodes@.len() == 0,
            r.wf(),
    {
        TransformArena { nodes: Vec::new() }
    }

    /// How many nodes the arena holds.
    pub fn len(&self) -> (r: usize)
        ensures
            r == self.nodes@.len(),
    {
        self.nodes.len()
    }

    /// Add a parentless node with the given placement; returns its handle.
    pub fn from_raw(&mut self, raw: RawTransform) -> (t: Transform)
        requires
            old(self).wf(),
        ensures
            final(self).wf(),
            final(self).nodes@ == old(self).nodes@.push(TransformNode { raw, parent: None }),
            t.idx == old(self).nodes@.len(),
            final(self).valid(t),
    {
        let t = Transform { idx: self.nodes.len() };
        self.nodes.push(TransformNode { raw, parent: None });
        t
    }

    /// Add a parentless node with the identity placement; returns its handle.
    pub fn new_transform(&mut self) -> (t: Transform)
        requires
            old(self).wf(),
        ensures
            final(self).wf(),
            final(self).nodes@ == old(self).nodes@.push(
                TransformNode { raw: RawTransform::identity(), parent: None },
            ),
            t.idx == old(self).nodes@.len(),
            final(self).valid(t),
    {
        let raw = RawTransform::new();
        self.from_raw(raw)
    }

    /// Add a parentless node translated to `(x, y, z)`; returns its handle.
    pub fn from_xyz(&mut self, x: i64, y: i64, z: i64) -> (t: Transform)
        requires
            old(self).wf(),
        ensures
            final(self).wf(),
            final(self).nodes@ == old(self).nodes@.push(
                TransformNode {
                    raw: RawTransform {
                        position: Vector3 { x, y, z },
                        ..RawTransform::identity()
                    },
                    parent: None,
                },
            ),
            t.idx == old(self).nodes@.len(),
            final(self).valid(t),
    {
        let raw = RawTransform::from_xyz(x, y, z);
        self.from_raw(raw)
    }

    /// Add a parentless node translated to `(x, y, z)` and turned by `h` and
    /// `v`; returns its handle.
    pub fn from_xyz_hv(&mut self, x: i64, y: i64, z: i64, h: i64, v: i64) -> (t: Transform)
        requires
            old(self).wf(),
        ensures
            final(self).wf(),
            final(self).nodes@ == old(self).nodes@.push(
                TransformNode {
                    raw: RawTransform {
                        position: Vector3 { x, y, z },
                        scale: FX_ONE,
                        rotation: Vector3 { x: v, y: h, z: 0 },
                    },
                    parent: None,
                },
            ),
            t.idx == old(self).nodes@.len(),
            final(self).valid(t),
    {
        let raw = RawTransform::from_xyz_hv(x, y, z, h, v);
        self.from_raw(raw)
    }

    /// Make `parent` the parent of `t`: a one-time or repeatable
    /// reassignment. The parent must be the earlier node, which keeps the
    /// hierarchy acyclic and its evaluation finite.
    pub fn set_parent(&mut self, t: Transform, parent: Transform)
        requires
            old(self).wf(),
            old(self).valid(t),
            old(self).valid(parent),
            parent.idx < t.idx,
        ensures
            final(self).wf(),
            final(self).nodes@ == old(self).nodes@.update(
                t.idx as int,
                TransformNode { parent: Some(parent.idx), ..old(self).nodes@[t.idx as int] },
            ),
    {
        let node = TransformNode { parent: Some(parent.idx), ..self.nodes[t.idx] };
        self.nodes[t.idx] = node;
    }

    /// Replace the placement of `t`.
    pub fn set_transform(&mut self, t: Transform, raw: RawTransform)
        requires
            old(self).wf(),
            old(self).valid(t),
        ensures
            final(self).wf(),
            final(self).nodes@ == old(self).nodes@.update(
                t.idx as int,
                TransformNode { raw, ..old(self).nodes@[t.idx as int] },
            ),
    {
        let node = TransformNode { raw, ..self.nodes[t.idx] };
        self.nodes[t.idx] = node;
    }

    /// The placement of `t`.
    pub fn to_raw(&self, t: Transform) -> (r: RawTransform)
        requires
            self.valid(t),
        ensures
            r == self.nodes@[t.idx as int].raw,
    {
        self.nodes[t.idx].raw
    }

    /// Move the node `t` by `(dx, dy, dz)`.
    pub fn translate(&mut self, t: Transform, dx: i64, dy: i64, dz: i64)
        requires
            old(self).wf(),
            old(self).valid(t),
        ensures
            final(self).wf(),
            final(self).nodes@ == old(self).nodes@.update(
                t.idx as int,
                TransformNode {
                    raw: RawTransform {
                        position: vec3_add(
                            old(self).nodes@[t.idx as int].raw.position,
                            Vector3 { x: dx, y: dy, z: dz },
                        ),
                        ..old(self).nodes@[t.idx as int].raw
                    },
                    ..old(self).nodes@[t.idx as int]
                },
            ),
    {
        let mut raw = self.nodes[t.idx].raw;
        raw.translate(dx, dy, dz);
        self.set_transform(t, raw);
    }

    /// Move the node `t` by the vector `dv`.
    pub fn translate_vec(&mut self, t: Transform, dv: Vector3)
        requires
            old(self).wf(),
            old(self).valid(t),
        ensures
            final(self).wf(),
            final(self).nodes@ == old(self).nodes@.update(
                t.idx as int,
                TransformNode {
                    raw: RawTransform {
                        position: vec3_add(old(self).nodes@[t.idx as int].raw.position, dv),
                        ..old(self).nodes@[t.idx as int].raw
                    },
                    ..old(self).nodes@[t.idx as int]
                },
            ),
    {
        let mut raw = self.nodes[t.idx].raw;
        raw.translate_vec(dv);
        self.set_transform(t, raw);
    }

    /// Turn the node `t` by `dh` about the y axis.
    pub fn rotate_h(&mut self, t: Transform, dh: i64)
        requires
            old(self).wf(),
            old(self).valid(t),
        ensures
            final(self).wf(),
            final(self).nodes@ == old(self).nodes@.update(
                t.idx as int,
                TransformNode {
                    raw: RawTransform {
                        rotation: vec3_add(
                            old(self).nodes@[t.idx as int].raw.rotation,
                            Vector3 { x: 0, y: dh, z: 0 },
                        ),
                        ..old(self).nodes@[t.idx as int].raw
                    },
                    ..old(self).nodes@[t.idx as int]
                },
            ),
    {
        let mut raw = self.nodes[t.idx].raw;
        raw.rotate_h(dh);
        self.set_transform(t, raw);
    }

    /// Turn the node `t` by `dv` about the x axis.
    pub fn rotate_v(&mut self, t: Transform, dv: i64)
        requires
            old(self).wf(),
            old(self).valid(t),
        ensures
            final(self).wf(),
            final(self).nodes@ == old(self).nodes@.update(
                t.idx as int,
                TransformNode {
                    raw: RawTransform {
                        rotation: vec3_add(
                            old(self).nodes@[t.idx as int].raw.rotation,
                            Vector3 { x: dv, y: 0, z: 0 },
                        ),
                        ..old(self).nodes@[t.idx as int].raw
                    },
                    ..old(self).nodes@[t.idx as int]
                },
            ),
    {
        let mut raw = self.nodes[t.idx].raw;
        raw.rotate_v(dv);
        self.set_transform(t, raw);
    }

    /// Turn the node `t` by `rot` about all three axes.
    pub fn rotate(&mut self, t: Transform, rot: Vector3)
        requires
            old(self).wf(),
            old(self).valid(t),
        ensures
            final(self).wf(),
            final(self).nodes@ == old(self).nodes@.update(
                t.idx as int,
                TransformNode {
                    raw: RawTransform {
                        rotation: vec3_add(old(self).nodes@[t.idx as int].raw.rotation, rot),
                        ..old(self).nodes@[t.idx as int].raw
                    },
                    ..old(self).nodes@[t.idx as int]
                },
            ),
    {
        let mut raw = self.nodes[t.idx].raw;
        raw.rotate(rot);
        self.set_transform(t, raw);
    }

    /// Multiply the uniform scale of the node `t` by `scale_factor`.
    pub fn scale(&mut self, t: Transform, scale_factor: i64)
        requires
            old(self).wf(),
            old(self).valid(t),
        ensures
            final(self).wf(),
            final(self).nodes@ == old(self).nodes@.update(
                t.idx as int,
                TransformNode {
                    raw: RawTransform {
                        scale: crate::fx::fxm(old(self).nodes@[t.idx as int].raw.scale, scale_factor),
                        ..old(self).nodes@[t.idx as int].raw
                    },
                    ..old(self).nodes@[t.idx as int]
                },
            ),
    {
        let mut raw = self.nodes[t.idx].raw;
        raw.scale(scale_factor);
        self.set_transform(t, raw);
    }

    /// The node's own position, without the parent chain.
    pub fn position(&self, t: Transform) -> (r: Vector3)
        requires
            self.valid(t),
        ensures
            r == self.nodes@[t.idx as int].raw.position,
    {
        self.nodes[t.idx].raw.position
    }

    /// The node's world-space position along the parent chain, as axis-aligned
    /// collision sees it: positions summed, rotation and scale ignored.
    pub fn world_position(&self, t: Transform) -> (r: Vector3)
        requires
            self.wf(),
            self.valid(t),
        ensures
            r == chain_position(self.nodes@, t.idx as int),
        decreases t.idx,
    {
        let local = self.nodes[t.idx].raw.position;
        match self.nodes[t.idx].parent {
            None => local,
            Some(p) => {
                let up = self.world_position(Transform { idx: p });
                up.plus(&local)
            },
        }
    }

    /// The composed world matrix of `t`: the parent's world matrix times the
    /// node's local matrix.
    pub fn matrix(&self, t: Transform) -> (r: Matrix)
        requires
            self.wf(),
            self.valid(t),
        ensures
            r == world_matrix(self.nodes@, t.idx as int),
        decreases t.idx,
    {
        let local = self.nodes[t.idx].raw.matrix();
        match self.nodes[t.idx].parent {
            None => local,
            Some(p) => {
                let up = self.matrix(Transform { idx: p });
                up.mul(&local)
            },
        }
    }

    /// The composed reverse matrix of `t`: the node's reverse times the
    /// parent's reverse, used as a view matrix.
    pub fn reverse_matrix(&self, t: Transform) -> (r: Matrix)
        requires
            self.wf(),
            self.valid(t),
        ensures
            r == world_reverse_matrix(self.nodes@, t.idx as int),
        decreases t.idx,
    {
        let local = self.nodes[t.idx].raw.reverse_matrix();
        match self.nodes[t.idx].parent {
            None => local,
            Some(p) => {
                let up = self.reverse_matrix(Transform { idx: p });
                local.mul(&up)
            },
        }
    }

    /// The composed rotation-only matrix of `t`.
    pub fn normal_matrix(&self, t: Transform) -> (r: Matrix)
        requires
            self.wf(),
            self.valid(t),
        ensures
            r == world_normal_matrix(self.nodes@, t.idx as int),
        decreases t.idx,
    {
        let local = self.nodes[t.idx].raw.normal_matrix();
        match self.nodes[t.idx].parent {
            None => local,
            Some(p) => {
                let up = self.normal_matrix(Transform { idx: p });
                up.mul(&local)
            },
        }
    }
}

/// Hierarchy composition: a parented node's world matrix is exactly its
/// parent's world matrix times its own local matrix.
pub proof fn lemma_hierarchy_composition(nodes: Seq<TransformNode>, i: int)
    requires
        arena_wf(nodes),
        0 <= i < nodes.len(),
        nodes[i].parent is Some,
    ensures
        world_matrix(nodes, i) == mat_mul(
            world_matrix(nodes, nodes[i].parent.unwrap() as int),
            raw_local_matrix(nodes[i].raw),
        ),
{
}

/// A placement that only translates has the translation as its local matrix:
/// the rotations collapse to the identity and the unit scale is absorbed.
pub proof fn lemma_local_matrix_of_translation(rt: RawTransform)
    requires
        rt.rotation == (Vector3 { x: 0, y: 0, z: 0 }),
        rt.scale == FX_ONE,
    ensures
        raw_local_matrix(rt) == mat_translate(rt.position),
{
    crate::trig::lemma_sin_zero();
    crate::trig::lemma_cos_zero();
    crate::fx::lemma_fx_unit();
    assert(mat_rot_z(0) == mat_ident());
    assert(mat_rot_x(0) == mat_ident());
    assert(mat_rot_y(0) == mat_ident());
    assert(mat_scale(FX_ONE) == mat_ident());
    crate::matrix::lemma_mat_mul_ident(mat_translate(rt.position));
}

/// A child with the identity placement sits exactly where its translated
/// parent sits: its world matrix is the parent's translation.
pub proof fn lemma_child_of_translated_parent(nodes: Seq<TransformNode>, c: int)
    requires
        arena_wf(nodes),
        0 <= c < nodes.len(),
        nodes[c].parent is Some,
        nodes[c].raw == RawTransform::identity(),
        nodes[nodes[c].parent.unwrap() as int].parent is None,
        nodes[nodes[c].parent.unwrap() as int].raw.rotation == (Vector3 { x: 0, y: 0, z: 0 }),
        nodes[nodes[c].parent.unwrap() as int].raw.scale == FX_ONE,
    ensures
        world_matrix(nodes, c) == mat_translate(nodes[nodes[c].parent.unwrap() as int].raw.position),
{
    let p = nodes[c].parent.unwrap() as int;
    lemma_local_matrix_of_translation(nodes[p].raw);
    lemma_local_matrix_of_translation(nodes[c].raw);
    assert(mat_translate(Vector3 { x: 0, y: 0, z: 0 }) == mat_ident());
    crate::matrix::lemma_mat_mul_ident(world_matrix(nodes, p));
}

/// The reverse matrix inverts the forward matrix exactly for a placement that
/// only translates. With a rotation or a scale the fixed-point products round
/// and the identity holds only to a tolerance.
pub proof fn lemma_reverse_inverts_translation(rt: RawTransform)
    requires
        rt.rotation == (Vector3 { x: 0, y: 0, z: 0 }),
        rt.scale == FX_ONE,
        rt.position.x > i64::MIN,
        rt.position.y > i64::MIN,
        rt.position.z > i64::MIN,
    ensures
        mat_mul(raw_local_matrix(rt), raw_reverse_matrix(rt)) == mat_ident(),
        mat_mul(raw_reverse_matrix(rt), raw_local_matrix(rt)) == mat_ident(),
{
    crate::trig::lemma_sin_zero();
    crate::trig::lemma_cos_zero();
    crate::fx::lemma_fx_unit();
    lemma_local_matrix_of_translation(rt);
    assert(crate::fx::fx_recip(FX_ONE as int) == FX_ONE as int) by (nonlinear_arith);
    assert(mat_rot_z(0) == mat_ident());
    assert(mat_rot_x(0) == mat_ident());
    assert(mat_rot_y(0) == mat_ident());
    assert(mat_scale(FX_ONE) == mat_ident());
    crate::matrix::lemma_mat_mul_ident(mat_translate(vec3_neg(rt.position)));
    assert(raw_reverse_matrix(rt) == mat_translate(vec3_neg(rt.position)));
}

/// The reverse matrix inverts the forward matrix exactly for a placement that
/// only scales, by a positive factor whose reciprocal is exact.
pub proof fn lemma_reverse_inverts_scale(rt: RawTransform)
    requires
        rt.rotation == (Vector3 { x: 0, y: 0, z: 0 }),
        rt.position == (Vector3 { x: 0, y: 0, z: 0 }),
        0 < rt.scale,
        (FX_ONE as int * FX_ONE as int) % (rt.scale as int) == 0,
    ensures
        mat_mul(raw_local_matrix(rt), raw_reverse_matrix(rt)) == mat_ident(),
        mat_mul(raw_reverse_matrix(rt), raw_local_matrix(rt)) == mat_ident(),
{
    crate::trig::lemma_sin_zero();
    crate::trig::lemma_cos_zero();
    crate::fx::lemma_fx_unit();
    assert(mat_rot_z(0) == mat_ident());
    assert(mat_rot_x(0) == mat_ident());
    assert(mat_rot_y(0) == mat_ident());
    assert(mat_translate(Vector3 { x: 0, y: 0, z: 0 }) == mat_ident());
    let k = rt.scale as int;
    let q = (FX_ONE as int * FX_ONE as int) / k;
    vstd::arithmetic::div_mod::lemma_fundamental_div_mod(FX_ONE as int * FX_ONE as int, k);
    assert(k * q == FX_ONE as int * FX_ONE as int);
    assert(FX_ONE as int * FX_ONE as int == 1000000000000int) by (nonlinear_arith);
    assert(0 < q <= 1000000000000int) by {
        vstd::arithmetic::div_mod::lemma_div_pos_is_pos(1000000000000int, k);
        if q == 0 {
            assert(k * 0 == 0) by (nonlinear_arith);
        }
        if q > 1000000000000int {
            assert(k * q >= 1 * q) by (nonlinear_arith)
                requires
                    1 <= k,
                    0 <= q,
            ;
        }
    }
    let kr = crate::fx::fx_recip(rt.scale as int);
    assert(kr == q);
    crate::matrix::lemma_mat_mul_ident(mat_scale(q as i64));
    crate::matrix::lemma_mat_mul_ident(mat_scale(rt.scale));
    assert(raw_local_matrix(rt) == mat_scale(rt.scale));
    assert(raw_reverse_matrix(rt) == mat_scale(q as i64));
    assert(crate::fx::fxm(rt.scale, q as i64) == FX_ONE) by {
        assert(k * q / (FX_ONE as int) == FX_ONE as int) by (nonlinear_arith)
            requires
                k * q == 1000000000000int,
                FX_ONE == 1000000,
        ;
    }
    assert(crate::fx::fxm(q as i64, rt.scale) == FX_ONE) by {
        assert(q * k == k * q) by (nonlinear_arith);
        assert(q * k / (FX_ONE as int) == FX_ONE as int) by (nonlinear_arith)
            requires
                q * k == 1000000000000int,
                FX_ONE == 1000000,
        ;
    }
}

} // verus!
