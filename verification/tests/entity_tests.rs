//! Id issuing, the id repository, and resource requests.
use spatial_core::entity::{AnimationId, BodyId, Entity, EntityId, ObjectId, ScriptId};
use spatial_core::id_repository::{Id, IdRepositpry};
use spatial_core::resources::{RequestedEntity, ResourceRequest};
use spatial_core::transform::TransformArena;

#[test]
fn ids_count_up_from_empty() {
    let e = EntityId::empty();
    assert_eq!(e.0, 0);
    let n = e.next();
    assert_eq!(n.0, 1);
    assert!(n.same(&n.duplicate()));
    assert!(!n.same(&e));
    assert_eq!(ObjectId::empty().next().0, 1);
    assert_eq!(AnimationId::empty().next().0, 1);
    assert_eq!(BodyId::empty().next().0, 1);
    assert_eq!(ScriptId::empty().next().0, 1);
}

#[test]
fn repository_issues_fresh_ids() {
    let mut repo: IdRepositpry<EntityId, u32> = IdRepositpry::new();
    let a = repo.insert(10);
    let b = repo.insert(20);
    assert_eq!(a.0, 1);
    assert_eq!(b.0, 2);
    assert_eq!(repo.get(&a), Some(&10));
    assert_eq!(repo.get(&b), Some(&20));
    assert_eq!(repo.get(&EntityId(99)), None);
}

#[test]
fn repository_removes_by_id() {
    let mut repo: IdRepositpry<BodyId, u32> = IdRepositpry::new();
    let a = repo.insert(10);
    let b = repo.insert(20);
    assert_eq!(repo.remove(&a), Some(10));
    assert_eq!(repo.remove(&a), None);
    assert_eq!(repo.get(&b), Some(&20));
    // an id issued after a removal is still fresh
    let c = repo.insert(30);
    assert_eq!(c.0, 3);
    assert_eq!(repo.iter().len(), 2);
}

#[test]
fn repository_hands_out_mutable_values() {
    let mut repo: IdRepositpry<ObjectId, u32> = IdRepositpry::new();
    let a = repo.insert(10);
    if let Some(v) = repo.get_mut(&a) {
        *v = 11;
    }
    assert_eq!(repo.get(&a), Some(&11));
    assert!(repo.get_mut(&ObjectId(99)).is_none());
}

#[test]
fn an_entity_holds_its_part_ids() {
    let mut arena = TransformArena::new();
    let t = arena.new_transform();
    let e = Entity {
        transform: t,
        object: ObjectId(0),
        animation: AnimationId(0),
        body: BodyId(0),
        scripts: vec![ScriptId(1), ScriptId(2)],
    };
    assert_eq!(e.scripts.len(), 2);
    assert_eq!(e.transform.idx, t.idx);
}

#[test]
fn resource_requests_carry_path_and_name() {
    let r = RequestedEntity::new("resources/walk.skl", "Walk.skl");
    assert_eq!(r.path, "resources/walk.skl".to_string());
    assert_eq!(r.name, "Walk.skl".to_string());
    match ResourceRequest::image("resources/skull.jpg", "Skull") {
        ResourceRequest::Image(e) => {
            assert_eq!(e.path, "resources/skull.jpg".to_string());
            assert_eq!(e.name, "Skull".to_string());
        },
        ResourceRequest::Text(_) => panic!("an image request"),
    }
    match ResourceRequest::text("resources/walk.anim", "Walk.anim") {
        ResourceRequest::Text(e) => {
            assert_eq!(e.name, "Walk.anim".to_string());
        },
        ResourceRequest::Image(_) => panic!("a text request"),
    }
}
