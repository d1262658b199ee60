//! The skeleton description: a bind-pose bone hierarchy parsed from the bone
//! text format.
//!
//! Records: `b <name>` declares a bone (no parent, identity bind pose);
//! `bp <name>` sets the newest bone's parent to the bone of that name
//! declared before it; `bb <rx> <ry> <rz>` sets the newest bone's bind-pose
//! rotation. Malformed records are structured errors, and a parsed skeleton
//! always satisfies the hierarchy invariant: each parent index is `-1` or
//! smaller than its bone's own index.
use crate::parse::{
    bytes_eq, obj_lines, obj_records, parse_point_3, point3_of, token_is, token_is2,
    transform_arity_ok, ParseError,
};
use crate::transform::RawTransform;
use crate::vector::Vector3;
use vstd::prelude::*;
use vstd::string::StringSliceAdditionalSpecFns;

verus! {

/// One bone of a skeleton: its name, its parent index (`-1` at a root), and
/// its bind-pose local placement.
pub struct Bone {
    pub name: Vec<u8>,
    pub parent: Option<usize>,
    pub initial_transform: RawTransform,
}

/// The mathematical image of a bone.
pub struct BoneModel {
    pub name: Seq<u8>,
    pub parent: int,
    pub initial_transform: RawTransform,
}

/// The mathematical image of a bone value.
pub open spec fn bone_model(b: Bone) -> BoneModel {
    BoneModel {
        name: b.name@,
        parent: match b.parent {
            None => -1,
            Some(p) => p as int,
        },
        initial_transform: b.initial_transform,
    }
}

/// The last index in `bones` whose bone carries `name`, or `-1`.
pub open spec fn find_bone_spec(bones: Seq<BoneModel>, name: Seq<u8>) -> int
    decreases bones.len(),
{
    if bones.len() == 0 {
        -1
    } else if bones.last().name == name {
        bones.len() - 1
    } else {
        find_bone_spec(bones.drop_last(), name)
    }
}

/// A found index lies in the list and carries the name.
pub proof fn lemma_find_bone_spec(bones: Seq<BoneModel>, name: Seq<u8>)
    ensures
        -1 <= find_bone_spec(bones, name) < bones.len(),
        find_bone_spec(bones, name) >= 0 ==> bones[find_bone_spec(bones, name)].name == name,
    decreases bones.len(),
{
    if bones.len() > 0 && bones.last().name != name {
        lemma_find_bone_spec(bones.drop_last(), name);
    }
}

/// What one record does to the bone list built so far.
pub open spec fn skel_step(bones: Seq<BoneModel>, rec: Seq<Seq<u8>>, idx: int) -> Result<
    Seq<BoneModel>,
    ParseError,
> {
    if rec.len() == 0 {
        Ok(bones)
    } else if rec[0] == seq![98u8] {
        if rec.len() < 2 {
            Err(ParseError::MissingField { record: idx as usize })
        } else {
            Ok(
                bones.push(
                    BoneModel {
                        name: rec[1],
                        parent: -1,
                        initial_transform: RawTransform::identity(),
                    },
                ),
            )
        }
    } else if rec[0] == seq![98u8, 112u8] {
        if rec.len() < 2 {
            Err(ParseError::MissingField { record: idx as usize })
        } else if bones.len() == 0 {
            Err(ParseError::NoCurrentBone { record: idx as usize })
        } else {
            let p = find_bone_spec(bones.drop_last(), rec[1]);
            if p < 0 {
                Err(ParseError::UnknownParent { record: idx as usize })
            } else {
                Ok(
                    bones.update(
                        bones.len() - 1,
                        BoneModel { parent: p, ..bones.last() },
                    ),
                )
            }
        }
    } else if rec[0] == seq![98u8, 98u8] {
        if bones.len() == 0 {
            Err(ParseError::NoCurrentBone { record: idx as usize })
        } else if !transform_arity_ok(rec.len() - 1) {
            Err(ParseError::BadArity { record: idx as usize })
        } else {
            match point3_of(rec.skip(1)) {
                None => Err(ParseError::BadNumber { record: idx as usize }),
                Some(v) => Ok(
                    bones.update(
                        bones.len() - 1,
                        BoneModel {
                            initial_transform: RawTransform {
                                rotation: v,
                                ..RawTransform::identity()
                            },
                            ..bones.last()
                        },
                    ),
                ),
            }
        }
    } else {
        Ok(bones)
    }
}

/// The bone list after the first `n` records, or the first record's error.
pub open spec fn skel_records(records: Seq<Seq<Seq<u8>>>, n: int) -> Result<
    Seq<BoneModel>,
    ParseError,
>
    decreases n,
{
    if n <= 0 {
        Ok(Seq::empty())
    } else {
        match skel_records(records, n - 1) {
            Err(e) => Err(e),
            Ok(bones) => skel_step(bones, records[n - 1], n - 1),
        }
    }
}

/// The skeleton a text denotes: its records folded in order.
pub open spec fn skel_spec(text: Seq<u8>) -> Result<Seq<BoneModel>, ParseError> {
    skel_records(obj_records(text), obj_records(text).len() as int)
}

/// Every parent index a fold can produce is `-1` or an earlier bone's index.
pub open spec fn bones_wf(bones: Seq<BoneModel>) -> bool {
    forall|i: int| 0 <= i < bones.len() ==> -1 <= #[trigger] bones[i].parent < i
}

/// One step preserves the hierarchy invariant.
proof fn lemma_skel_step_wf(bones: Seq<BoneModel>, rec: Seq<Seq<u8>>, idx: int)
    requires
        bones_wf(bones),
        skel_step(bones, rec, idx) is Ok,
    ensures
        bones_wf(skel_step(bones, rec, idx).unwrap()),
{
    if rec.len() > 0 && rec[0] == seq![98u8, 112u8] && rec.len() >= 2 && bones.len() > 0 {
        lemma_find_bone_spec(bones.drop_last(), rec[1]);
    }
}

/// An error stays the fold's answer however many more records follow.
proof fn lemma_skel_records_err(records: Seq<Seq<Seq<u8>>>, k: int, n: int)
    requires
        k <= n,
        skel_records(records, k) is Err,
    ensures
        skel_records(records, n) == skel_records(records, k),
    decreases n - k,
{
    if k < n {
        lemma_skel_records_err(records, k, n - 1);
    }
}

/// The whole fold preserves the hierarchy invariant.
proof fn lemma_skel_records_wf(records: Seq<Seq<Seq<u8>>>, n: int)
    requires
        skel_records(records, n) is Ok,
    ensures
        bones_wf(skel_records(records, n).unwrap()),
    decreases n,
{
    if n > 0 {
        lemma_skel_records_wf(records, n - 1);
        lemma_skel_step_wf(skel_records(records, n - 1).unwrap(), records[n - 1], n - 1);
    }
}

/// Copy a byte string.
fn copy_bytes(v: &Vec<u8>) -> (r: Vec<u8>)
    ensures
        r@ == v@,
{
    let mut r: Vec<u8> = Vec::new();
    let mut i: usize = 0;
    while i < v.len()
        invariant
            i <= v@.len(),
            r@ == v@.take(i as int),
        decreases v@.len() - i,
    {
        r.push(v[i]);
        proof {
            assert(v@.take(i as int).push(v@[i as int]) =~= v@.take(i + 1 as int));
        }
        i = i + 1;
    }
    proof {
        assert(v@.take(v@.len() as int) =~= v@);
    }
    r
}

/// The static bind-pose hierarchy: an ordered list of bones.
pub struct Skeleton {
    pub bones: Vec<Bone>,
}

impl Skeleton {
    /// The mathematical image of the bone list.
    pub open spec fn models(&self) -> Seq<BoneModel> {
        self.bones@.map_values(|b: Bone| bone_model(b))
    }

    /// Whether each bone's parent index is `-1` or an earlier bone's index.
    pub open spec fn wf(&self) -> bool {
        bones_wf(self.models())
    }

    /// Search `bones[0..hi]` for the last bone named `name`.
    fn find_last_bone(bones: &Vec<Bone>, hi: usize, name: &Vec<u8>) -> (r: Option<usize>)
        requires
            hi <= bones@.len(),
        ensures
            match r {
                Some(j) => j < hi && find_bone_spec(
                    bones@.map_values(|b: Bone| bone_model(b)).take(hi as int),
                    name@,
                ) == j,
                None => find_bone_spec(
                    bones@.map_values(|b: Bone| bone_model(b)).take(hi as int),
                    name@,
                ) == -1,
            },
    {
        let ghost models = bones@.map_values(|b: Bone| bone_model(b));
        let mut j: usize = hi;
        while j > 0
            invariant
                j <= hi <= bones@.len(),
                models == bones@.map_values(|b: Bone| bone_model(b)),
                find_bone_spec(models.take(hi as int), name@) == find_bone_spec(
                    models.take(j as int),
                    name@,
                ),
            decreases j,
        {
            j = j - 1;
            if bytes_eq(&bones[j].name, name) {
                proof {
                    assert(models.take(j + 1 as int).last() == models[j as int]);
                    assert(models[j as int].name == name@);
                }
                return Some(j);
            }
            proof {
                assert(models.take(j + 1 as int).last() == models[j as int]);
                assert(models.take(j + 1 as int).drop_last() =~= models.take(j as int));
            }
        }
        proof {
            assert(models.take(0) =~= Seq::<BoneModel>::empty());
        }
        None
    }

    /// The index of the last bone named `name`, if any.
    pub fn find_bone(&self, name: &Vec<u8>) -> (r: Option<usize>)
        ensures
            match r {
                Some(j) => j < self.bones@.len() && find_bone_spec(self.models(), name@) == j,
                None => find_bone_spec(self.models(), name@) == -1,
            },
    {
        proof {
            assert(self.models().take(self.bones@.len() as int) =~= self.models());
        }
        Skeleton::find_last_bone(&self.bones, self.bones.len(), name)
    }

    /// Parse a skeleton description: bones in file order, each `bp` resolved
    /// against the bones declared before its bone, each `bb` a bind rotation.
    /// The result satisfies the hierarchy invariant; a malformed record is
    /// the error the spec-level fold assigns it.
    pub fn from_file(file: &str) -> (r: Result<Skeleton, ParseError>)
        ensures
            match skel_spec(file.spec_bytes()) {
                Ok(bs) => r is Ok && r.unwrap().models() == bs && r.unwrap().wf(),
                Err(e) => r == Err::<Skeleton, ParseError>(e),
            },
    {
        let records = obj_lines(file);
        let ghost recs = records.deep_view();
        let mut bones: Vec<Bone> = Vec::new();
        let mut i: usize = 0;
        proof {
            assert(bones@.map_values(|b: Bone| bone_model(b)) =~= Seq::<BoneModel>::empty());
        }
        while i < records.len()
            invariant
                i <= records@.len(),
                recs == records.deep_view(),
                recs == obj_records(file.spec_bytes()),
                recs.len() == records@.len(),
                skel_records(recs, i as int) == Ok::<Seq<BoneModel>, ParseError>(
                    bones@.map_values(|b: Bone| bone_model(b)),
                ),
            decreases records@.len() - i,
        {
            let rec = &records[i];
            let ghost prev = bones@.map_values(|b: Bone| bone_model(b));
            proof {
                assert(recs[i as int] == records@[i as int].deep_view());
                assert(recs[i as int].len() == records@[i as int]@.len());
                assert forall|k: int| 0 <= k < records@[i as int]@.len() implies recs[i as int][k]
                    == records@[i as int]@[k]@ by {}
            }
            if rec.len() == 0 {
                // an empty record never reaches the list; nothing to do
            } else if token_is(&rec[0], 98) {
                if rec.len() < 2 {
                    proof {
                        lemma_skel_records_err(recs, i + 1, recs.len() as int);
                    }
                    return Err(ParseError::MissingField { record: i });
                }
                let name = copy_bytes(&rec[1]);
                bones.push(
                    Bone { name, parent: None, initial_transform: RawTransform::new() },
                );
                proof {
                    assert(bones@.map_values(|b: Bone| bone_model(b)) =~= prev.push(
                        BoneModel {
                            name: recs[i as int][1],
                            parent: -1,
                            initial_transform: RawTransform::identity(),
                        },
                    ));
                }
            } else if token_is2(&rec[0], 98, 112) {
                if rec.len() < 2 {
                    proof {
                        lemma_skel_records_err(recs, i + 1, recs.len() as int);
                    }
                    return Err(ParseError::MissingField { record: i });
                }
                if bones.len() == 0 {
                    proof {
                        lemma_skel_records_err(recs, i + 1, recs.len() as int);
                    }
                    return Err(ParseError::NoCurrentBone { record: i });
                }
                proof {
                    assert(prev.drop_last() =~= bones@.map_values(|b: Bone| bone_model(b)).take(
                        bones@.len() - 1,
                    ));
                }
                let p = match Skeleton::find_last_bone(&bones, bones.len() - 1, &rec[1]) {
                    None => {
                        proof {
                            lemma_skel_records_err(recs, i + 1, recs.len() as int);
                        }
                        return Err(ParseError::UnknownParent { record: i });
                    },
                    Some(p) => p,
                };
                let mut last = match bones.pop() {
                    Some(b) => b,
                    None => {
                        proof {
                            assert(false);
                        }
                        return Err(ParseError::NoCurrentBone { record: i });
                    },
                };
                last.parent = Some(p);
                bones.push(last);
                proof {
                    assert(bones@.map_values(|b: Bone| bone_model(b)) =~= prev.update(
                        prev.len() - 1,
                        BoneModel { parent: p as int, ..prev.last() },
                    ));
                }
            } else if token_is2(&rec[0], 98, 98) {
                if bones.len() == 0 {
                    proof {
                        lemma_skel_records_err(recs, i + 1, recs.len() as int);
                    }
                    return Err(ParseError::NoCurrentBone { record: i });
                }
                let n = rec.len() - 1;
                if n < 3 || n % 3 != 0 {
                    proof {
                        lemma_skel_records_err(recs, i + 1, recs.len() as int);
                    }
                    return Err(ParseError::BadArity { record: i });
                }
                proof {
                    assert(recs[i as int].skip(1) =~= records@[i as int].deep_view().skip(1));
                }
                let v = match parse_point_3(rec, 1) {
                    None => {
                        proof {
                            lemma_skel_records_err(recs, i + 1, recs.len() as int);
                        }
                        return Err(ParseError::BadNumber { record: i });
                    },
                    Some(v) => v,
                };
                let mut last = match bones.pop() {
                    Some(b) => b,
                    None => {
                        proof {
                            assert(false);
                        }
                        return Err(ParseError::NoCurrentBone { record: i });
                    },
                };
                last.initial_transform = RawTransform {
                    position: Vector3 { x: 0, y: 0, z: 0 },
                    scale: crate::fx::FX_ONE,
                    rotation: v,
                };
                bones.push(last);
                proof {
                    assert(bones@.map_values(|b: Bone| bone_model(b)) =~= prev.update(
                        prev.len() - 1,
                        BoneModel {
                            initial_transform: RawTransform {
                                rotation: v,
                                ..RawTransform::identity()
                            },
                            ..prev.last()
                        },
                    ));
                }
            } else {
                // an unknown keyword is skipped, as a comment is
            }
            i = i + 1;
        }
        proof {
            lemma_skel_records_wf(recs, recs.len() as int);
        }
        Ok(Skeleton { bones })
    }
}

/// A run-time bone: its handle into the transform arena, its parent bone,
/// the bind-pose placement, and the current posed placement.
#[derive(Clone, Copy, Debug, PartialEq, Eq, Structural)]
pub struct BoneTransform {
    pub transform: crate::transform::Transform,
    pub parent: Option<usize>,
    pub initial: RawTransform,
    pub posed: RawTransform,
}

/// Every bone-parent index points at an earlier bone.
pub open spec fn bt_wf(bones: Seq<BoneTransform>) -> bool {
    forall|i: int|
        0 <= i < bones.len() ==> (bones[i].parent is Some ==> bones[i].parent.unwrap() < i)
}

/// The posed world matrix of bone `i`, composed over the bone hierarchy
/// alone: the object's own transform is deliberately not part of it.
pub open spec fn posed_world(bones: Seq<BoneTransform>, i: int) -> crate::matrix::Matrix
    decreases i,
{
    match bones[i].parent {
        None => crate::transform::raw_local_matrix(bones[i].posed),
        Some(p) => if 0 <= i && p < i {
            crate::matrix::mat_mul(
                posed_world(bones, p as int),
                crate::transform::raw_local_matrix(bones[i].posed),
            )
        } else {
            crate::transform::raw_local_matrix(bones[i].posed)
        },
    }
}

/// The reverse of the bind-pose world matrix of bone `i`: the local reverses
/// composed outward along the hierarchy.
pub open spec fn initial_world_reverse(bones: Seq<BoneTransform>, i: int) -> crate::matrix::Matrix
    decreases i,
{
    match bones[i].parent {
        None => crate::transform::raw_reverse_matrix(bones[i].initial),
        Some(p) => if 0 <= i && p < i {
            crate::matrix::mat_mul(
                crate::transform::raw_reverse_matrix(bones[i].initial),
                initial_world_reverse(bones, p as int),
            )
        } else {
            crate::transform::raw_reverse_matrix(bones[i].initial)
        },
    }
}

/// The skin matrix of bone `i`: posed world times the reverse of the bind
/// world, mapping a vertex from bind space to current pose space.
pub open spec fn skin_matrix_spec(bones: Seq<BoneTransform>, i: int) -> crate::matrix::Matrix {
    crate::matrix::mat_mul(posed_world(bones, i), initial_world_reverse(bones, i))
}

impl BoneTransform {
    /// Overwrite the current pose and propagate it into the arena node; the
    /// bind pose is untouched.
    pub fn set_pose(
        &mut self,
        arena: &mut crate::transform::TransformArena,
        pose: RawTransform,
    )
        requires
            old(arena).wf(),
            old(arena).valid(old(self).transform),
        ensures
            *final(self) == (BoneTransform { posed: pose, ..*old(self) }),
            final(arena).wf(),
            final(arena).nodes@ == old(arena).nodes@.update(
                old(self).transform.idx as int,
                crate::transform::TransformNode {
                    raw: pose,
                    ..old(arena).nodes@[old(self).transform.idx as int]
                },
            ),
    {
        self.posed = pose;
        arena.set_transform(self.transform, pose);
    }

    /// The posed world matrix of bone `i`, over the bone hierarchy alone.
    pub fn posed_world_matrix(bones: &Vec<BoneTransform>, i: usize) -> (r: crate::matrix::Matrix)
        requires
            bt_wf(bones@),
            i < bones@.len(),
        ensures
            r == posed_world(bones@, i as int),
        decreases i,
    {
        let local = bones[i].posed.matrix();
        match bones[i].parent {
            None => local,
            Some(p) => {
                let up = BoneTransform::posed_world_matrix(bones, p);
                up.mul(&local)
            },
        }
    }

    /// The reverse of the bind-pose world matrix of bone `i`.
    pub fn initial_world_reverse_matrix(bones: &Vec<BoneTransform>, i: usize) -> (r:
        crate::matrix::Matrix)
        requires
            bt_wf(bones@),
            i < bones@.len(),
        ensures
            r == initial_world_reverse(bones@, i as int),
        decreases i,
    {
        let local = bones[i].initial.reverse_matrix();
        match bones[i].parent {
            None => local,
            Some(p) => {
                let up = BoneTransform::initial_world_reverse_matrix(bones, p);
                local.mul(&up)
            },
        }
    }

    /// The skin matrix of bone `i`: the matrix uploaded per bone to skin a
    /// mesh, mapping bind space to current pose space.
    pub fn matrix(bones: &Vec<BoneTransform>, i: usize) -> (r: crate::matrix::Matrix)
        requires
            bt_wf(bones@),
            i < bones@.len(),
        ensures
            r == skin_matrix_spec(bones@, i as int),
    {
        let posed = BoneTransform::posed_world_matrix(bones, i);
        let rev = BoneTransform::initial_world_reverse_matrix(bones, i);
        posed.mul(&rev)
    }
}

/// How `make_nested_transforms` wires bones, handles and arena nodes: one
/// fresh node per bone from `base` on, bind pose as both placements, each
/// node parented to its parent bone's node, roots to the given root handle.
pub open spec fn nested_transforms_ok(
    out: Seq<BoneTransform>,
    nodes: Seq<crate::transform::TransformNode>,
    base: int,
    bones: Seq<BoneModel>,
    root: crate::transform::Transform,
) -> bool {
    &&& out.len() == bones.len()
    &&& forall|k: int|
        0 <= k < out.len() ==> {
            &&& (#[trigger] out[k]).initial == bones[k].initial_transform
            &&& out[k].posed == bones[k].initial_transform
            &&& out[k].transform.idx == base + k
            &&& out[k].parent == (if bones[k].parent >= 0 {
                Some(bones[k].parent as usize)
            } else {
                None::<usize>
            })
            &&& nodes[base + k].raw == bones[k].initial_transform
            &&& nodes[base + k].parent == Some(
                if bones[k].parent >= 0 {
                    (base + bones[k].parent) as usize
                } else {
                    root.idx
                },
            )
        }
}

impl Skeleton {
    /// Build one run-time bone per skeleton bone: bind pose as both the
    /// initial and the posed placement, a fresh arena node per bone, each
    /// parented to its parent bone's node and the roots to `parent`.
    pub fn make_nested_transforms(
        &self,
        arena: &mut crate::transform::TransformArena,
        parent: crate::transform::Transform,
    ) -> (out: Vec<BoneTransform>)
        requires
            self.wf(),
            old(arena).wf(),
            old(arena).valid(parent),
        ensures
            final(arena).wf(),
            final(arena).nodes@.len() == old(arena).nodes@.len() + self.bones@.len(),
            final(arena).nodes@.take(old(arena).nodes@.len() as int) == old(arena).nodes@,
            bt_wf(out@),
            nested_transforms_ok(
                out@,
                final(arena).nodes@,
                old(arena).nodes@.len() as int,
                self.models(),
                parent,
            ),
            forall|k: int| 0 <= k < out@.len() ==> final(arena).valid(#[trigger] out@[k].transform),
    {
        let ghost base = arena.nodes@.len() as int;
        let ghost orig = arena.nodes@;
        let mut out: Vec<BoneTransform> = Vec::new();
        let mut k: usize = 0;
        while k < self.bones.len()
            invariant
                k <= self.bones@.len(),
                self.wf(),
                arena.wf(),
                out@.len() == k,
                arena.nodes@.len() == base + k,
                base == orig.len(),
                arena.nodes@.take(base) == orig,
                parent.idx < base,
                bt_wf(out@),
                nested_transforms_ok(
                    out@,
                    arena.nodes@,
                    base,
                    self.models().take(k as int),
                    parent,
                ),
            decreases self.bones@.len() - k,
        {
            let ghost pre = arena.nodes@;
            let bone_parent = self.bones[k].parent;
            let initial = self.bones[k].initial_transform;
            let t = arena.from_raw(initial);
            match bone_parent {
                None => {
                    arena.set_parent(t, parent);
                },
                Some(p) => {
                    proof {
                        assert(self.models()[k as int].parent == p);
                        assert(-1 <= self.models()[k as int].parent < k);
                    }
                    let pt = out[p].transform;
                    arena.set_parent(t, pt);
                },
            }
            out.push(
                BoneTransform { transform: t, parent: bone_parent, initial, posed: initial },
            );
            proof {
                assert(arena.nodes@.take(base) =~= orig);
                assert(self.models().take(k + 1 as int).len() == k + 1);
                assert forall|j: int| 0 <= j < k + 1 implies self.models().take(k + 1 as int)[j]
                    == self.models()[j] by {}
            }
            k = k + 1;
        }
        proof {
            assert(self.models().take(self.bones@.len() as int) =~= self.models());
        }
        out
    }
}

/// At the bind pose the skin matrix is exactly the identity, for bind poses
/// that only translate, within a position range where the chained sums do
/// not saturate. A rotated or scaled bind pose makes the fixed-point
/// products round, and the identity then holds only to a tolerance.
pub proof fn lemma_skin_identity_at_bind_pose(bones: Seq<BoneTransform>, i: int)
    requires
        bt_wf(bones),
        0 <= i < bones.len(),
        bones.len() <= 0x100000,
        forall|k: int| 0 <= k < bones.len() ==> (#[trigger] bones[k]).posed == bones[k].initial,
        forall|k: int|
            0 <= k < bones.len() ==> (#[trigger] bones[k]).initial.rotation == (Vector3 {
                x: 0,
                y: 0,
                z: 0,
            }),
        forall|k: int| 0 <= k < bones.len() ==> (#[trigger] bones[k]).initial.scale
            == crate::fx::FX_ONE,
        forall|k: int|
            0 <= k < bones.len() ==> {
                &&& -0x10000000000 <= (#[trigger] bones[k]).initial.position.x <= 0x10000000000
                &&& -0x10000000000 <= bones[k].initial.position.y <= 0x10000000000
                &&& -0x10000000000 <= bones[k].initial.position.z <= 0x10000000000
            },
    ensures
        skin_matrix_spec(bones, i) == crate::matrix::mat_ident(),
    decreases i,
{
    lemma_bind_chain(bones, i);
    let s = chain_sum(bones, i);
    let t = chain_neg_sum(bones, i);
    crate::fx::lemma_fx_unit();
    assert(crate::matrix::mat_mul(
        crate::matrix::mat_translate(s),
        crate::matrix::mat_translate(t),
    ) == crate::matrix::mat_translate(crate::vector::vec3_add(s, t)));
    assert(crate::vector::vec3_add(s, t) == (Vector3 { x: 0, y: 0, z: 0 }));
    assert(crate::matrix::mat_translate(Vector3 { x: 0, y: 0, z: 0 })
        == crate::matrix::mat_ident());
}

/// The exact chained position sum of bone `i`'s parent chain.
pub open spec fn chain_sum(bones: Seq<BoneTransform>, i: int) -> Vector3
    decreases i,
{
    match bones[i].parent {
        None => bones[i].initial.position,
        Some(p) => if 0 <= i && p < i {
            crate::vector::vec3_add(chain_sum(bones, p as int), bones[i].initial.position)
        } else {
            bones[i].initial.position
        },
    }
}

/// The chained sum of negated positions, composed outward.
pub open spec fn chain_neg_sum(bones: Seq<BoneTransform>, i: int) -> Vector3
    decreases i,
{
    match bones[i].parent {
        None => crate::vector::vec3_neg(bones[i].initial.position),
        Some(p) => if 0 <= i && p < i {
            crate::vector::vec3_add(
                crate::vector::vec3_neg(bones[i].initial.position),
                chain_neg_sum(bones, p as int),
            )
        } else {
            crate::vector::vec3_neg(bones[i].initial.position)
        },
    }
}

/// Along a translation-only bind chain, the posed world matrix is the
/// translation by the chained sum, the bind reverse is the translation by
/// the chained negated sum, and the two sums cancel exactly.
#[verifier::rlimit(60)]
proof fn lemma_bind_chain(bones: Seq<BoneTransform>, i: int)
    requires
        bt_wf(bones),
        0 <= i < bones.len(),
        bones.len() <= 0x100000,
        forall|k: int| 0 <= k < bones.len() ==> (#[trigger] bones[k]).posed == bones[k].initial,
        forall|k: int|
            0 <= k < bones.len() ==> (#[trigger] bones[k]).initial.rotation == (Vector3 {
                x: 0,
                y: 0,
                z: 0,
            }),
        forall|k: int| 0 <= k < bones.len() ==> (#[trigger] bones[k]).initial.scale
            == crate::fx::FX_ONE,
        forall|k: int|
            0 <= k < bones.len() ==> {
                &&& -0x10000000000 <= (#[trigger] bones[k]).initial.position.x <= 0x10000000000
                &&& -0x10000000000 <= bones[k].initial.position.y <= 0x10000000000
                &&& -0x10000000000 <= bones[k].initial.position.z <= 0x10000000000
            },
    ensures
        posed_world(bones, i) == crate::matrix::mat_translate(chain_sum(bones, i)),
        initial_world_reverse(bones, i) == crate::matrix::mat_translate(chain_neg_sum(bones, i)),
        chain_sum(bones, i).x as int + chain_neg_sum(bones, i).x as int == 0,
        chain_sum(bones, i).y as int + chain_neg_sum(bones, i).y as int == 0,
        chain_sum(bones, i).z as int + chain_neg_sum(bones, i).z as int == 0,
        -0x10000000000 * (i + 1) <= chain_sum(bones, i).x as int <= 0x10000000000 * (i + 1),
        -0x10000000000 * (i + 1) <= chain_sum(bones, i).y as int <= 0x10000000000 * (i + 1),
        -0x10000000000 * (i + 1) <= chain_sum(bones, i).z as int <= 0x10000000000 * (i + 1),
    decreases i,
{
    crate::fx::lemma_fx_unit();
    crate::transform::lemma_local_matrix_of_translation(bones[i].initial);
    crate::transform::lemma_reverse_inverts_translation(bones[i].initial);
    assert(crate::transform::raw_reverse_matrix(bones[i].initial)
        == crate::matrix::mat_translate(crate::vector::vec3_neg(bones[i].initial.position)));
    assert(0x10000000000 * (i + 1) <= 0x10000000000 * 0x100000) by (nonlinear_arith)
        requires
            i + 1 <= 0x100000,
    ;
    match bones[i].parent {
        None => {},
        Some(p) => {
            if 0 <= i && (p as int) < i {
                lemma_bind_chain(bones, p as int);
                assert(0x10000000000 * (p + 1) + 0x10000000000 <= 0x10000000000 * (i + 1))
                    by (nonlinear_arith)
                    requires
                        p + 1 <= i,
                ;
                assert(crate::matrix::mat_mul(
                    crate::matrix::mat_translate(chain_sum(bones, p as int)),
                    crate::matrix::mat_translate(bones[i].initial.position),
                ) == crate::matrix::mat_translate(
                    crate::vector::vec3_add(
                        chain_sum(bones, p as int),
                        bones[i].initial.position,
                    ),
                ));
                assert(crate::matrix::mat_mul(
                    crate::matrix::mat_translate(
                        crate::vector::vec3_neg(bones[i].initial.position),
                    ),
                    crate::matrix::mat_translate(chain_neg_sum(bones, p as int)),
                ) == crate::matrix::mat_translate(
                    crate::vector::vec3_add(
                        crate::vector::vec3_neg(bones[i].initial.position),
                        chain_neg_sum(bones, p as int),
                    ),
                ));
            }
        },
    }
}

} // verus!
