//! Entities and the ids that address their parts.
use crate::id_repository::Id;
use crate::transform::Transform;
use vstd::prelude::*;

verus! {

/// The id of an entity.
#[derive(Clone, Copy, Debug, PartialEq, Eq, Structural)]
pub struct EntityId(pub usize);

impl Id for EntityId {
    open spec fn key(&self) -> nat {
        self.0 as nat
    }

    fn empty() -> (r: Self) {
        EntityId(0)
    }

    fn next(&self) -> (r: Self) {
        EntityId(self.0 + 1)
    }

    fn duplicate(&self) -> (r: Self) {
        EntityId(self.0)
    }

    fn same(&self, other: &Self) -> (r: bool) {
        self.0 == other.0
    }
}

/// The id of a drawable object.
#[derive(Clone, Copy, Debug, PartialEq, Eq, Structural)]
pub struct ObjectId(pub usize);

impl Id for ObjectId {
    open spec fn key(&self) -> nat {
        self.0 as nat
    }

    fn empty() -> (r: Self) {
        ObjectId(0)
    }

    fn next(&self) -> (r: Self) {
        ObjectId(self.0 + 1)
    }

    fn duplicate(&self) -> (r: Self) {
        ObjectId(self.0)
    }

    fn same(&self, other: &Self) -> (r: bool) {
        self.0 == other.0
    }
}

/// The id of an animation.
#[derive(Clone, Copy, Debug, PartialEq, Eq, Structural)]
pub struct AnimationId(pub usize);

impl Id for AnimationId {
    open spec fn key(&self) -> nat {
        self.0 as nat
    }

    fn empty() -> (r: Self) {
        AnimationId(0)
    }

    fn next(&self) -> (r: Self) {
        AnimationId(self.0 + 1)
    }

    fn duplicate(&self) -> (r: Self) {
        AnimationId(self.0)
    }

    fn same(&self, other: &Self) -> (r: bool) {
        self.0 == other.0
    }
}

/// The id of a rigid body.
#[derive(Clone, Copy, Debug, PartialEq, Eq, Structural)]
pub struct BodyId(pub usize);

impl Id for BodyId {
    open spec fn key(&self) -> nat {
        self.0 as nat
    }

    fn empty() -> (r: Self) {
        BodyId(0)
    }

    fn next(&self) -> (r: Self) {
        BodyId(self.0 + 1)
    }

    fn duplicate(&self) -> (r: Self) {
        BodyId(self.0)
    }

    fn same(&self, other: &Self) -> (r: bool) {
        self.0 == other.0
    }
}

/// The id of a script instance.
#[derive(Clone, Copy, Debug, PartialEq, Eq, Structural)]
pub struct ScriptId(pub usize);

impl Id for ScriptId {
    open spec fn key(&self) -> nat {
        self.0 as nat
    }

    fn empty() -> (r: Self) {
        ScriptId(0)
    }

    fn next(&self) -> (r: Self) {
        ScriptId(self.0 + 1)
    }

    fn duplicate(&self) -> (r: Self) {
        ScriptId(self.0)
    }

    fn same(&self, other: &Self) -> (r: bool) {
        self.0 == other.0
    }
}

/// One entity of the scene: its transform handle and the ids of its parts.
pub struct Entity {
    pub transform: Transform,
    pub object: ObjectId,
    pub animation: AnimationId,
    pub body: BodyId,
    pub scripts: Vec<ScriptId>,
}

} // verus!
