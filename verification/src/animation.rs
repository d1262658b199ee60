//! Animation playback: ordered per-bone pose snapshots and discrete stepping.
//!
//! The animation text format: `fr` opens a frame (the first `fr` opens frame
//! zero without closing one), `af <rx> <ry> <rz>` appends one bone's pose to
//! the open frame, in bone-list order. Playback is discrete: an external
//! controller steps a frame index by one with wraparound and applies the
//! frame; no interpolation happens between frames.
use crate::parse::{
    obj_lines, obj_records, parse_point_3, point3_of, token_is2, transform_arity_ok, ParseError,
};
use crate::skeleton::BoneTransform;
use crate::transform::{RawTransform, TransformArena, TransformNode};
use crate::vector::Vector3;
use vstd::prelude::*;
use vstd::string::StringSliceAdditionalSpecFns;

verus! {

/// One frame: a local placement per bone, index-aligned with the bone list.
pub struct AnimationFrame {
    pub transforms: Vec<RawTransform>,
}

/// An ordered sequence of frames; insertion order is playback order.
pub struct Animation {
    pub frames: Vec<AnimationFrame>,
}

/// The state of the frame fold: closed frames, the open frame, and whether
/// the first `fr` is still awaited.
pub struct AnimState {
    pub frames: Seq<Seq<RawTransform>>,
    pub current: Seq<RawTransform>,
    pub skip: bool,
}

/// What one record does to the fold state.
pub open spec fn anim_step(st: AnimState, rec: Seq<Seq<u8>>, idx: int) -> Result<
    AnimState,
    ParseError,
> {
    if rec.len() == 0 {
        Ok(st)
    } else if rec[0] == seq![102u8, 114u8] {
        if st.skip {
            Ok(AnimState { skip: false, ..st })
        } else {
            Ok(
                AnimState {
                    frames: st.frames.push(st.current),
                    current: Seq::empty(),
                    skip: false,
                },
            )
        }
    } else if rec[0] == seq![97u8, 102u8] {
        if !transform_arity_ok(rec.len() - 1) {
            Err(ParseError::BadArity { record: idx as usize })
        } else {
            match point3_of(rec.skip(1)) {
                None => Err(ParseError::BadNumber { record: idx as usize }),
                Some(v) => Ok(
                    AnimState {
                        current: st.current.push(
                            RawTransform { rotation: v, ..RawTransform::identity() },
                        ),
                        ..st
                    },
                ),
            }
        }
    } else {
        Ok(st)
    }
}

/// The fold state after the first `n` records.
pub open spec fn anim_records(records: Seq<Seq<Seq<u8>>>, n: int) -> Result<AnimState, ParseError>
    decreases n,
{
    if n <= 0 {
        Ok(AnimState { frames: Seq::empty(), current: Seq::empty(), skip: true })
    } else {
        match anim_records(records, n - 1) {
            Err(e) => Err(e),
            Ok(st) => anim_step(st, records[n - 1], n - 1),
        }
    }
}

/// The frames a text denotes: the fold's closed frames with the open frame
/// appended: the format closes the last open frame at end of file.
pub open spec fn anim_spec(text: Seq<u8>) -> Result<Seq<Seq<RawTransform>>, ParseError> {
    match anim_records(obj_records(text), obj_records(text).len() as int) {
        Err(e) => Err(e),
        Ok(st) => Ok(st.frames.push(st.current)),
    }
}

/// An error stays the fold's answer however many more records follow.
proof fn lemma_anim_records_err(records: Seq<Seq<Seq<u8>>>, k: int, n: int)
    requires
        k <= n,
        anim_records(records, k) is Err,
    ensures
        anim_records(records, n) == anim_records(records, k),
    decreases n - k,
{
    if k < n {
        lemma_anim_records_err(records, k, n - 1);
    }
}

/// What applying a frame does to the arena: each bone's node, in bone order,
/// gets the frame's placement for that bone.
pub open spec fn posed_nodes(
    nodes: Seq<TransformNode>,
    bones: Seq<BoneTransform>,
    poses: Seq<RawTransform>,
    n: int,
) -> Seq<TransformNode>
    decreases n,
{
    if n <= 0 {
        nodes
    } else {
        let prev = posed_nodes(nodes, bones, poses, n - 1);
        prev.update(
            bones[n - 1].transform.idx as int,
            TransformNode { raw: poses[n - 1], ..prev[bones[n - 1].transform.idx as int] },
        )
    }
}

impl Animation {
    /// How many frames the animation holds.
    pub fn frame_count(&self) -> (r: usize)
        ensures
            r == self.frames@.len(),
    {
        self.frames.len()
    }

    /// The mathematical image of the frame list.
    pub open spec fn models(&self) -> Seq<Seq<RawTransform>> {
        self.frames@.map_values(|f: AnimationFrame| f.transforms@)
    }

    /// Parse an animation description: `fr` opens a frame, `af` appends one
    /// bone's pose to it; the last frame closes at end of file, so a text
    /// without any `fr` still denotes one (possibly empty) frame.
    pub fn parse(file: &str) -> (r: Result<Animation, ParseError>)
        ensures
            match anim_spec(file.spec_bytes()) {
                Ok(fs) => r is Ok && r.unwrap().models() == fs,
                Err(e) => r == Err::<Animation, ParseError>(e),
            },
    {
        let records = obj_lines(file);
        let ghost recs = records.deep_view();
        let mut frames: Vec<AnimationFrame> = Vec::new();
        let mut current: Vec<RawTransform> = Vec::new();
        let mut skip = true;
        let mut i: usize = 0;
        proof {
            assert(frames@.map_values(|f: AnimationFrame| f.transforms@) =~= Seq::<
                Seq<RawTransform>,
            >::empty());
            assert(current@ =~= Seq::<RawTransform>::empty());
        }
        while i < records.len()
            invariant
                i <= records@.len(),
                recs == records.deep_view(),
                recs == obj_records(file.spec_bytes()),
                recs.len() == records@.len(),
                anim_records(recs, i as int) == Ok::<AnimState, ParseError>(
                    AnimState {
                        frames: frames@.map_values(|f: AnimationFrame| f.transforms@),
                        current: current@,
                        skip: skip,
                    },
                ),
            decreases records@.len() - i,
        {
            let rec = &records[i];
            let ghost st = AnimState {
                frames: frames@.map_values(|f: AnimationFrame| f.transforms@),
                current: current@,
                skip: skip,
            };
            proof {
                assert(recs[i as int] == records@[i as int].deep_view());
                assert(recs[i as int].len() == records@[i as int]@.len());
                assert forall|k: int| 0 <= k < records@[i as int]@.len() implies recs[i as int][k]
                    == records@[i as int]@[k]@ by {}
            }
            if rec.len() == 0 {
                // an empty record never reaches the list; nothing to do
            } else if token_is2(&rec[0], 102, 114) {
                if skip {
                    skip = false;
                } else {
                    let ghost prev = frames@.map_values(|f: AnimationFrame| f.transforms@);
                    frames.push(AnimationFrame { transforms: current });
                    current = Vec::new();
                    proof {
                        assert(frames@.map_values(|f: AnimationFrame| f.transforms@) =~= prev.push(
                            st.current,
                        ));
                        assert(current@ =~= Seq::<RawTransform>::empty());
                    }
                }
            } else if token_is2(&rec[0], 97, 102) {
                let n = rec.len() - 1;
                if n < 3 || n % 3 != 0 {
                    proof {
                        lemma_anim_records_err(recs, i + 1, recs.len() as int);
                    }
                    return Err(ParseError::BadArity { record: i });
                }
                let v = match parse_point_3(rec, 1) {
                    None => {
                        proof {
                            lemma_anim_records_err(recs, i + 1, recs.len() as int);
                        }
                        return Err(ParseError::BadNumber { record: i });
                    },
                    Some(v) => v,
                };
                current.push(
                    RawTransform {
                        position: Vector3 { x: 0, y: 0, z: 0 },
                        scale: crate::fx::FX_ONE,
                        rotation: v,
                    },
                );
            } else {
                // an unknown keyword is skipped, as a comment is
            }
            i = i + 1;
        }
        let ghost last = frames@.map_values(|f: AnimationFrame| f.transforms@);
        frames.push(AnimationFrame { transforms: current });
        proof {
            assert(frames@.map_values(|f: AnimationFrame| f.transforms@) =~= last.push(
                anim_records(recs, recs.len() as int).unwrap().current,
            ));
        }
        Ok(Animation { frames })
    }

    /// The next frame index: one step forward, wrapping at the frame count.
    pub fn step_index(&self, index: usize) -> (r: usize)
        requires
            self.frames@.len() > 0,
            index < self.frames@.len(),
        ensures
            r == step_spec(index as int, self.frames@.len() as int),
    {
        let n = self.frames.len();
        (index + 1) % n
    }

    /// The previous frame index: one step back, wrapping at the frame count.
    pub fn step_back_index(&self, index: usize) -> (r: usize)
        requires
            self.frames@.len() > 0,
            index < self.frames@.len(),
        ensures
            r == (index as int + self.frames@.len() - 1) % (self.frames@.len() as int),
    {
        let n = self.frames.len();
        if index == 0 {
            proof {
                vstd::arithmetic::div_mod::lemma_small_mod((n - 1) as nat, n as nat);
            }
            n - 1
        } else {
            proof {
                vstd::arithmetic::div_mod::lemma_mod_add_multiples_vanish(index - 1, n as int);
                vstd::arithmetic::div_mod::lemma_small_mod((index - 1) as nat, n as nat);
            }
            index - 1
        }
    }
}

impl AnimationFrame {
    /// Assign this frame's placements onto the run-time bones and their
    /// arena nodes, in bone order; the bind poses stay untouched. The frame
    /// must carry exactly one placement per bone, else the typed error comes
    /// back and nothing changes.
    pub fn set_pose(
        &self,
        bones: &mut Vec<BoneTransform>,
        arena: &mut TransformArena,
    ) -> (r: Result<(), PoseError>)
        requires
            old(arena).wf(),
            forall|k: int|
                0 <= k < old(bones)@.len() ==> old(arena).valid(
                    (#[trigger] old(bones)@[k]).transform,
                ),
        ensures
            self.transforms@.len() != old(bones)@.len() ==> r == Err::<(), PoseError>(
                PoseError::BoneCountMismatch,
            ) && *final(bones) == *old(bones) && *final(arena) == *old(arena),
            self.transforms@.len() == old(bones)@.len() ==> {
                &&& r is Ok
                &&& final(bones)@.len() == old(bones)@.len()
                &&& forall|k: int|
                    0 <= k < old(bones)@.len() ==> final(bones)@[k] == (BoneTransform {
                        posed: self.transforms@[k],
                        ..old(bones)@[k]
                    })
                &&& final(arena).nodes@ == posed_nodes(
                    old(arena).nodes@,
                    old(bones)@,
                    self.transforms@,
                    old(bones)@.len() as int,
                )
                &&& final(arena).wf()
            },
    {
        if self.transforms.len() != bones.len() {
            return Err(PoseError::BoneCountMismatch);
        }
        let ghost obones = bones@;
        let ghost onodes = arena.nodes@;
        let mut k: usize = 0;
        while k < bones.len()
            invariant
                k <= bones@.len(),
                obones == old(bones)@,
                onodes == old(arena).nodes@,
                bones@.len() == obones.len(),
                self.transforms@.len() == obones.len(),
                arena.wf(),
                arena.nodes@.len() == onodes.len(),
                forall|j: int|
                    0 <= j < obones.len() ==> old(arena).valid((#[trigger] obones[j]).transform),
                forall|j: int| k <= j < obones.len() ==> bones@[j] == obones[j],
                forall|j: int|
                    0 <= j < k ==> bones@[j] == (BoneTransform {
                        posed: self.transforms@[j],
                        ..obones[j]
                    }),
                arena.nodes@ == posed_nodes(onodes, obones, self.transforms@, k as int),
            decreases bones@.len() - k,
        {
            let mut b = bones[k];
            proof {
                assert(bones@[k as int] == obones[k as int]);
                assert(old(arena).valid(obones[k as int].transform));
                assert(b.transform.idx < onodes.len());
            }
            b.set_pose(arena, self.transforms[k]);
            bones[k] = b;
            k = k + 1;
        }
        Ok(())
    }
}

/// The typed failure of applying a frame to a bone set.
#[derive(Clone, Copy, Debug, PartialEq, Eq, Structural)]
pub enum PoseError {
    /// The frame's placement count differs from the bone count.
    BoneCountMismatch,
}

/// One forward step of the frame index, wrapping at `n`.
pub open spec fn step_spec(i: int, n: int) -> int {
    (i + 1) % n
}

/// The frame index after `k` forward steps from `i`, wrapping at `n`.
pub open spec fn step_n(i: int, n: int, k: int) -> int
    decreases k,
{
    if k <= 0 {
        i
    } else {
        step_spec(step_n(i, n, k - 1), n)
    }
}

/// Stepping lands on the start plus the step count, modulo the frame count.
proof fn lemma_step_n_mod(i: int, n: int, k: int)
    requires
        0 <= i < n,
        0 <= k,
    ensures
        step_n(i, n, k) == (i + k) % n,
    decreases k,
{
    if k == 0 {
        vstd::arithmetic::div_mod::lemma_small_mod(i as nat, n as nat);
    } else {
        lemma_step_n_mod(i, n, k - 1);
        vstd::arithmetic::div_mod::lemma_add_mod_noop(i + k - 1, 1, n);
        vstd::arithmetic::div_mod::lemma_mod_pos_bound(i + k - 1, n);
        vstd::arithmetic::div_mod::lemma_mod_twice(i + k - 1, n);
        if n == 1 {
            vstd::arithmetic::div_mod::lemma_mod_pos_bound(1, 1);
            vstd::arithmetic::div_mod::lemma_mod_pos_bound((i + k - 1) % 1 + 1int % 1, 1);
            vstd::arithmetic::div_mod::lemma_mod_pos_bound((i + k - 1) % 1 + 1, 1);
            vstd::arithmetic::div_mod::lemma_mod_pos_bound(i + k, 1);
        } else {
            vstd::arithmetic::div_mod::lemma_small_mod(1, n as nat);
        }
    }
}

/// Animation wraparound: stepping the frame index as many times as there are
/// frames returns it to where it started, so applying the frame then poses
/// the bones exactly as before.
pub proof fn lemma_wraparound(i: int, n: int)
    requires
        0 <= i < n,
    ensures
        step_n(i, n, n) == i,
{
    lemma_step_n_mod(i, n, n);
    vstd::arithmetic::div_mod::lemma_mod_add_multiples_vanish(i, n);
    vstd::arithmetic::div_mod::lemma_small_mod(i as nat, n as nat);
}

} // verus!
