//! Per-vertex skin weights parsed from the skin-weight text format.
//!
//! A `vl` record carries up to four (bone-index, weight) pairs for one mesh
//! vertex, index-aligned with the mesh's point list; unspecified slots stay
//! at index zero with weight zero, so unskinned vertices ride on the rigid
//! fallback bone.
use crate::parse::{fx_literal, obj_lines, obj_records, parse_fx, token_is2, ParseError};
use crate::vector::{vec4_with_axis, Vector4};
use vstd::prelude::*;
use vstd::string::StringSliceAdditionalSpecFns;

verus! {

/// One vertex's skin data: up to four bone indices and their weights, as
/// fixed-point values.
#[derive(Clone, Copy, Debug, PartialEq, Eq, Structural)]
pub struct SkinningVertex {
    pub bones: Vector4,
    pub weights: Vector4,
}

/// The per-vertex skin data of a whole mesh, in vertex order.
pub struct Skinning {
    pub vertices: Vec<SkinningVertex>,
}

/// The vertex with no influence: all slots on bone zero with weight zero.
pub open spec fn empty_vertex() -> SkinningVertex {
    SkinningVertex {
        bones: Vector4 { x: 0, y: 0, z: 0, w: 0 },
        weights: Vector4 { x: 0, y: 0, z: 0, w: 0 },
    }
}

/// Fill the first `n` (bone, weight) pairs of `tokens` into `v`, slot by
/// slot; `None` when a number fails to parse.
pub open spec fn fill_pairs(v: SkinningVertex, tokens: Seq<Seq<u8>>, n: int) -> Option<
    SkinningVertex,
>
    decreases n,
{
    if n <= 0 {
        Some(v)
    } else {
        match fill_pairs(v, tokens, n - 1) {
            None => None,
            Some(v2) => match (fx_literal(tokens[2 * (n - 1)]), fx_literal(
                tokens[2 * (n - 1) + 1],
            )) {
                (Some(b), Some(w)) => Some(
                    SkinningVertex {
                        bones: vec4_with_axis(v2.bones, n - 1, b),
                        weights: vec4_with_axis(v2.weights, n - 1, w),
                    },
                ),
                _ => None,
            },
        }
    }
}

/// A failed pair keeps the fill failed however many pairs follow.
proof fn lemma_fill_pairs_none(v: SkinningVertex, tokens: Seq<Seq<u8>>, k: int, n: int)
    requires
        k <= n,
        fill_pairs(v, tokens, k) is None,
    ensures
        fill_pairs(v, tokens, n) is None,
    decreases n - k,
{
    if k < n {
        lemma_fill_pairs_none(v, tokens, k, n - 1);
    }
}

/// What one record does to the vertex list built so far.
pub open spec fn skin_step(
    vs: Seq<SkinningVertex>,
    rec: Seq<Seq<u8>>,
    idx: int,
) -> Result<Seq<SkinningVertex>, ParseError> {
    if rec.len() == 0 {
        Ok(vs)
    } else if rec[0] == seq![118u8, 108u8] {
        if rec.len() < 2 {
            Err(ParseError::MissingField { record: idx as usize })
        } else if (rec.len() - 2) % 2 != 0 || rec.len() - 2 > 8 {
            Err(ParseError::BadArity { record: idx as usize })
        } else {
            match fill_pairs(empty_vertex(), rec.skip(2), (rec.len() - 2) / 2) {
                None => Err(ParseError::BadNumber { record: idx as usize }),
                Some(v) => Ok(vs.push(v)),
            }
        }
    } else {
        Ok(vs)
    }
}

/// The vertex list after the first `n` records.
pub open spec fn skin_records(records: Seq<Seq<Seq<u8>>>, n: int) -> Result<
    Seq<SkinningVertex>,
    ParseError,
>
    decreases n,
{
    if n <= 0 {
        Ok(Seq::empty())
    } else {
        match skin_records(records, n - 1) {
            Err(e) => Err(e),
            Ok(vs) => skin_step(vs, records[n - 1], n - 1),
        }
    }
}

/// The skin data a text denotes.
pub open spec fn skin_spec(text: Seq<u8>) -> Result<Seq<SkinningVertex>, ParseError> {
    skin_records(obj_records(text), obj_records(text).len() as int)
}

/// An error stays the fold's answer however many more records follow.
proof fn lemma_skin_records_err(records: Seq<Seq<Seq<u8>>>, k: int, n: int)
    requires
        k <= n,
        skin_records(records, k) is Err,
    ensures
        skin_records(records, n) == skin_records(records, k),
    decreases n - k,
{
    if k < n {
        lemma_skin_records_err(records, k, n - 1);
    }
}

impl Skinning {
    /// Parse a skin-weight description: one `vl` record per vertex, up to
    /// four (bone-index, weight) pairs each, missing slots left at zero.
    #[verifier::loop_isolation(false)]
    pub fn parse(file: &str) -> (r: Result<Skinning, ParseError>)
        ensures
            match skin_spec(file.spec_bytes()) {
                Ok(vs) => r is Ok && r.unwrap().vertices@ == vs,
                Err(e) => r == Err::<Skinning, ParseError>(e),
            },
    {
        let records = obj_lines(file);
        let ghost recs = records.deep_view();
        let mut vertices: Vec<SkinningVertex> = Vec::new();
        let mut i: usize = 0;
        proof {
            assert(vertices@ =~= Seq::<SkinningVertex>::empty());
        }
        while i < records.len()
            invariant
                i <= records@.len(),
                recs == records.deep_view(),
                recs == obj_records(file.spec_bytes()),
                recs.len() == records@.len(),
                skin_records(recs, i as int) == Ok::<Seq<SkinningVertex>, ParseError>(vertices@),
            decreases records@.len() - i,
        {
            let rec = &records[i];
            proof {
                assert(recs[i as int] == records@[i as int].deep_view());
                assert(recs[i as int].len() == records@[i as int]@.len());
                assert forall|k: int| 0 <= k < records@[i as int]@.len() implies recs[i as int][k]
                    == records@[i as int]@[k]@ by {}
            }
            if rec.len() == 0 {
                // an empty record never reaches the list; nothing to do
            } else if token_is2(&rec[0], 118, 108) {
                if rec.len() < 2 {
                    proof {
                        lemma_skin_records_err(recs, i + 1, recs.len() as int);
                    }
                    return Err(ParseError::MissingField { record: i });
                }
                let m = rec.len() - 2;
                if m % 2 != 0 || m > 8 {
                    proof {
                        lemma_skin_records_err(recs, i + 1, recs.len() as int);
                    }
                    return Err(ParseError::BadArity { record: i });
                }
                let ghost pairs = recs[i as int].skip(2);
                let mut vertex = SkinningVertex {
                    bones: Vector4::zero(),
                    weights: Vector4::zero(),
                };
                let mut k: usize = 0;
                let half = m / 2;
                while k < half
                    invariant
                        k <= half,
                        half == m / 2,
                        m == rec@.len() - 2,
                        2 <= rec@.len(),
                        m <= 8,
                        pairs.len() == m,
                        forall|j: int| 0 <= j < m ==> pairs[j] == rec@[j + 2]@,
                        Some(vertex) == fill_pairs(empty_vertex(), pairs, k as int),
                    decreases half - k,
                {
                    let b = parse_fx(rec[2 + 2 * k].as_slice());
                    let w = parse_fx(rec[2 + 2 * k + 1].as_slice());
                    match (b, w) {
                        (Some(b), Some(w)) => {
                            let mut bones = vertex.bones;
                            let mut weights = vertex.weights;
                            bones.set(k, b);
                            weights.set(k, w);
                            vertex = SkinningVertex { bones, weights };
                        },
                        _ => {
                            proof {
                                lemma_fill_pairs_none(
                                    empty_vertex(),
                                    pairs,
                                    k + 1,
                                    (m / 2) as int,
                                );
                                lemma_skin_records_err(recs, i + 1, recs.len() as int);
                            }
                            return Err(ParseError::BadNumber { record: i });
                        },
                    }
                    k = k + 1;
                }
                vertices.push(vertex);
            } else {
                // an unknown keyword is skipped, as a comment is
            }
            i = i + 1;
        }
        Ok(Skinning { vertices })
    }
}

} // verus!
