//! The skeleton format, the run-time bone hierarchy, and skin matrices.
use spatial_core::fx::FX_ONE;
use spatial_core::matrix::Matrix;
use spatial_core::parse::ParseError;
use spatial_core::skeleton::{BoneTransform, Skeleton};
use spatial_core::transform::{RawTransform, TransformArena};
use spatial_core::vector::Vector3;

const SKELETON_TEXT: &str = "# a small biped\n\
b root\n\
b spine\n\
bp root\n\
bb 0.1 0.2 0.3\n\
b arm\n\
bp spine\n";

#[test]
fn skeleton_parses_bones_in_order() {
    let skl = Skeleton::from_file(SKELETON_TEXT).unwrap();
    assert_eq!(skl.bones.len(), 3);
    assert_eq!(skl.bones[0].name, b"root".to_vec());
    assert_eq!(skl.bones[0].parent, None);
    assert_eq!(skl.bones[1].name, b"spine".to_vec());
    assert_eq!(skl.bones[1].parent, Some(0));
    assert_eq!(
        skl.bones[1].initial_transform.rotation,
        Vector3::from_xyz(100_000, 200_000, 300_000)
    );
    assert_eq!(skl.bones[2].parent, Some(1));
}

#[test]
fn find_bone_returns_the_last_of_a_name() {
    let skl = Skeleton::from_file("b a\nb dup\nb dup\n").unwrap();
    assert_eq!(skl.find_bone(&b"a".to_vec()), Some(0));
    assert_eq!(skl.find_bone(&b"dup".to_vec()), Some(2));
    assert_eq!(skl.find_bone(&b"missing".to_vec()), None);
}

#[test]
fn unknown_parent_is_an_error() {
    match Skeleton::from_file("b root\nbp nowhere\n") {
        Err(e) => assert_eq!(e, ParseError::UnknownParent { record: 1 }),
        Ok(_) => panic!("expected a parse error"),
    };
}

#[test]
fn a_bone_cannot_parent_itself() {
    // The parent name resolves against the bones declared before this one.
    match Skeleton::from_file("b root\nbp root\n") {
        Err(e) => assert_eq!(e, ParseError::UnknownParent { record: 1 }),
        Ok(_) => panic!("expected a parse error"),
    };
}

#[test]
fn parent_before_any_bone_is_an_error() {
    match Skeleton::from_file("bp root\n") {
        Err(e) => assert_eq!(e, ParseError::NoCurrentBone { record: 0 }),
        Ok(_) => panic!("expected a parse error"),
    };
    match Skeleton::from_file("bb 1 2 3\n") {
        Err(e) => assert_eq!(e, ParseError::NoCurrentBone { record: 0 }),
        Ok(_) => panic!("expected a parse error"),
    };
}

#[test]
fn malformed_records_are_errors() {
    match Skeleton::from_file("b\n") {
        Err(e) => assert_eq!(e, ParseError::MissingField { record: 0 }),
        Ok(_) => panic!("expected a parse error"),
    };
    match Skeleton::from_file("b root\nbb 1 2\n") {
        Err(e) => assert_eq!(e, ParseError::BadArity { record: 1 }),
        Ok(_) => panic!("expected a parse error"),
    };
    match Skeleton::from_file("b root\nbb 1 2 x\n") {
        Err(e) => assert_eq!(e, ParseError::BadNumber { record: 1 }),
        Ok(_) => panic!("expected a parse error"),
    };
}

#[test]
fn unknown_keywords_are_skipped() {
    let skl = Skeleton::from_file("o mesh\nb root\nusemtl green\n").unwrap();
    assert_eq!(skl.bones.len(), 1);
}

#[test]
fn an_error_spoils_the_whole_parse() {
    // A record after the offending one does not resurrect the skeleton.
    match Skeleton::from_file("b root\nbb 1 2\nb tail\n") {
        Err(e) => assert_eq!(e, ParseError::BadArity { record: 1 }),
        Ok(_) => panic!("expected a parse error"),
    };
}

#[test]
fn nested_transforms_mirror_the_hierarchy() {
    let skl = Skeleton::from_file(SKELETON_TEXT).unwrap();
    let mut arena = TransformArena::new();
    let root = arena.from_xyz(7 * FX_ONE, 0, 0);
    let bones = skl.make_nested_transforms(&mut arena, root);
    assert_eq!(bones.len(), 3);
    assert_eq!(bones[0].parent, None);
    assert_eq!(bones[1].parent, Some(0));
    assert_eq!(bones[2].parent, Some(1));
    assert_eq!(bones[1].initial, skl.bones[1].initial_transform);
    assert_eq!(bones[1].posed, bones[1].initial);
    // the root bone's node hangs off the object transform
    assert_eq!(arena.nodes[bones[0].transform.idx].parent, Some(root.idx));
    // a child bone's node hangs off its parent bone's node
    assert_eq!(arena.nodes[bones[1].transform.idx].parent, Some(bones[0].transform.idx));
}

#[test]
fn skin_matrix_is_identity_at_a_translated_bind_pose() {
    // Bind poses that only translate: at the bind pose the skin matrix is
    // exactly the identity, parent chains included.
    let mut arena = TransformArena::new();
    let t0 = arena.new_transform();
    let t1 = arena.new_transform();
    let a = RawTransform::from_xyz(FX_ONE, 2 * FX_ONE, 0);
    let b = RawTransform::from_xyz(0, -5 * FX_ONE, 3 * FX_ONE);
    let bones = vec![
        BoneTransform { transform: t0, parent: None, initial: a, posed: a },
        BoneTransform { transform: t1, parent: Some(0), initial: b, posed: b },
    ];
    assert_eq!(BoneTransform::matrix(&bones, 0), Matrix::ident());
    assert_eq!(BoneTransform::matrix(&bones, 1), Matrix::ident());
}

#[test]
fn skin_matrix_is_near_identity_at_a_rotated_bind_pose() {
    // With a rotated bind pose the fixed-point products round: the skin
    // matrix at the bind pose is the identity only to a tolerance.
    let skl = Skeleton::from_file(SKELETON_TEXT).unwrap();
    let mut arena = TransformArena::new();
    let root = arena.new_transform();
    let bones = skl.make_nested_transforms(&mut arena, root);
    for i in 0..bones.len() {
        let m = BoneTransform::matrix(&bones, i);
        for r in 0..4 {
            for c in 0..4 {
                let want = if r == c { FX_ONE } else { 0 };
                assert!((m.get(r, c) - want).abs() < 100);
            }
        }
    }
}

#[test]
fn skin_matrix_follows_the_pose() {
    // Posing a lone bone one unit along x turns its skin matrix into that
    // translation, exactly, for translation-only placements.
    let mut arena = TransformArena::new();
    let t0 = arena.new_transform();
    let initial = RawTransform::new();
    let mut bones = vec![
        BoneTransform { transform: t0, parent: None, initial, posed: initial },
    ];
    let mut b = bones[0];
    b.set_pose(&mut arena, RawTransform::from_xyz(FX_ONE, 0, 0));
    bones[0] = b;
    assert_eq!(
        BoneTransform::matrix(&bones, 0),
        Matrix::translate(Vector3::from_xyz(FX_ONE, 0, 0))
    );
    assert_eq!(bones[0].initial, initial);
}
