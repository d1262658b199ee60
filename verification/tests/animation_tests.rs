//! The animation format, frame application, and discrete stepping.
use spatial_core::animation::{Animation, AnimationFrame, PoseError};
use spatial_core::fx::FX_ONE;
use spatial_core::parse::ParseError;
use spatial_core::skeleton::Skeleton;
use spatial_core::transform::{RawTransform, TransformArena};
use spatial_core::vector::Vector3;

const ANIMATION_TEXT: &str = "fr\n\
af 0.1 0 0\n\
af 0 0.2 0\n\
fr\n\
af 0.3 0 0\n\
af 0 0.4 0\n";

#[test]
fn animation_parses_frames_in_order() {
    let anim = Animation::parse(ANIMATION_TEXT).unwrap();
    assert_eq!(anim.frame_count(), 2);
    assert_eq!(anim.frames[0].transforms.len(), 2);
    assert_eq!(
        anim.frames[0].transforms[0].rotation,
        Vector3::from_xyz(100_000, 0, 0)
    );
    assert_eq!(
        anim.frames[1].transforms[1].rotation,
        Vector3::from_xyz(0, 400_000, 0)
    );
}

#[test]
fn a_text_without_frames_still_has_one() {
    let anim = Animation::parse("").unwrap();
    assert_eq!(anim.frame_count(), 1);
    assert_eq!(anim.frames[0].transforms.len(), 0);
}

#[test]
fn poses_before_the_first_frame_marker_land_in_frame_zero() {
    let anim = Animation::parse("af 0.5 0 0\nfr\naf 0.6 0 0\n").unwrap();
    assert_eq!(anim.frame_count(), 1);
    assert_eq!(anim.frames[0].transforms.len(), 2);
    assert_eq!(
        anim.frames[0].transforms[0].rotation,
        Vector3::from_xyz(500_000, 0, 0)
    );
}

#[test]
fn malformed_pose_records_are_errors() {
    match Animation::parse("fr\naf 1 2\n") {
        Err(e) => assert_eq!(e, ParseError::BadArity { record: 1 }),
        Ok(_) => panic!("expected a parse error"),
    };
    match Animation::parse("fr\naf 1 2 x\n") {
        Err(e) => assert_eq!(e, ParseError::BadNumber { record: 1 }),
        Ok(_) => panic!("expected a parse error"),
    };
}

#[test]
fn stepping_wraps_at_the_frame_count() {
    let anim = Animation::parse(ANIMATION_TEXT).unwrap();
    assert_eq!(anim.step_index(0), 1);
    assert_eq!(anim.step_index(1), 0);
    assert_eq!(anim.step_back_index(0), 1);
    assert_eq!(anim.step_back_index(1), 0);
}

#[test]
fn stepping_frame_count_times_returns_to_the_start() {
    // The wraparound scenario: stepping as many times as there are frames
    // lands back on the starting index, hence on the starting pose.
    let anim = Animation::parse("fr\naf 0.1 0 0\nfr\naf 0.2 0 0\nfr\naf 0.3 0 0\n").unwrap();
    let n = anim.frame_count();
    assert_eq!(n, 3);
    for start in 0..n {
        let mut idx = start;
        for _ in 0..n {
            idx = anim.step_index(idx);
        }
        assert_eq!(idx, start);
    }
}

#[test]
fn set_pose_applies_a_frame_to_the_bones() {
    let skl = Skeleton::from_file("b root\nb child\nbp root\n").unwrap();
    let mut arena = TransformArena::new();
    let root = arena.new_transform();
    let mut bones = skl.make_nested_transforms(&mut arena, root);
    let frame = AnimationFrame {
        transforms: vec![
            RawTransform::from_xyz(FX_ONE, 0, 0),
            RawTransform::from_xyz(0, FX_ONE, 0),
        ],
    };
    assert_eq!(frame.set_pose(&mut bones, &mut arena), Ok(()));
    assert_eq!(bones[0].posed, RawTransform::from_xyz(FX_ONE, 0, 0));
    assert_eq!(bones[1].posed, RawTransform::from_xyz(0, FX_ONE, 0));
    // the bind pose is untouched
    assert_eq!(bones[0].initial, RawTransform::new());
    // the arena nodes carry the new placements
    assert_eq!(
        arena.nodes[bones[0].transform.idx].raw,
        RawTransform::from_xyz(FX_ONE, 0, 0)
    );
}

#[test]
fn set_pose_rejects_a_bone_count_mismatch() {
    let skl = Skeleton::from_file("b root\nb child\nbp root\n").unwrap();
    let mut arena = TransformArena::new();
    let root = arena.new_transform();
    let mut bones = skl.make_nested_transforms(&mut arena, root);
    let frame = AnimationFrame { transforms: vec![RawTransform::new()] };
    assert_eq!(
        frame.set_pose(&mut bones, &mut arena),
        Err(PoseError::BoneCountMismatch)
    );
    // nothing moved
    assert_eq!(bones[0].posed, bones[0].initial);
}
