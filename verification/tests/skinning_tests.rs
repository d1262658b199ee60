//! The skin-weight format.
use spatial_core::parse::ParseError;
use spatial_core::skinning::Skinning;
use spatial_core::vector::Vector4;

#[test]
fn skinning_parses_pairs_into_slots() {
    let skin = Skinning::parse("vl 0 1 0.5 2 0.25 3 0.25\n").unwrap();
    assert_eq!(skin.vertices.len(), 1);
    let v = &skin.vertices[0];
    assert_eq!(v.bones, Vector4::from_xyzw(1_000_000, 2_000_000, 3_000_000, 0));
    assert_eq!(v.weights, Vector4::from_xyzw(500_000, 250_000, 250_000, 0));
}

#[test]
fn missing_slots_stay_at_zero() {
    let skin = Skinning::parse("vl 7 4 1\n").unwrap();
    let v = &skin.vertices[0];
    assert_eq!(v.bones, Vector4::from_xyzw(4_000_000, 0, 0, 0));
    assert_eq!(v.weights, Vector4::from_xyzw(1_000_000, 0, 0, 0));
}

#[test]
fn a_vertex_may_carry_no_pairs() {
    let skin = Skinning::parse("vl 7\n").unwrap();
    assert_eq!(skin.vertices[0].bones, Vector4::zero());
    assert_eq!(skin.vertices[0].weights, Vector4::zero());
}

#[test]
fn vertices_come_in_record_order() {
    let skin = Skinning::parse("vl 0 1 1\nvl 1 2 1\nx other\nvl 2 3 1\n").unwrap();
    assert_eq!(skin.vertices.len(), 3);
    assert_eq!(skin.vertices[2].bones.x, 3_000_000);
}

#[test]
fn malformed_vertices_are_errors() {
    match Skinning::parse("vl\n") {
        Err(e) => assert_eq!(e, ParseError::MissingField { record: 0 }),
        Ok(_) => panic!("expected a parse error"),
    };
    match Skinning::parse("vl 0 1\n") {
        Err(e) => assert_eq!(e, ParseError::BadArity { record: 0 }),
        Ok(_) => panic!("expected a parse error"),
    };
    match Skinning::parse("vl 0 1 1 2 1 3 1 4 1 5 1\n") {
        Err(e) => assert_eq!(e, ParseError::BadArity { record: 0 }),
        Ok(_) => panic!("expected a parse error"),
    };
    match Skinning::parse("vl 0 1 huh\n") {
        Err(e) => assert_eq!(e, ParseError::BadNumber { record: 0 }),
        Ok(_) => panic!("expected a parse error"),
    };
}
