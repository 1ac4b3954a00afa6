use vstd::prelude::*;

verus! {

/// Identifier of a material: its index in the scene's material list.
#[derive(Debug, Clone, Copy, PartialEq, Eq, Structural)]
pub struct MaterialId(pub usize);

/// Identifier of a primitive asset: its index in the scene's primitive list.
#[derive(Debug, Clone, Copy, PartialEq, Eq, Structural)]
pub struct PrimitiveId(pub usize);

/// Identifier of an object: its index in the scene's object list.
#[derive(Debug, Clone, Copy, PartialEq, Eq, Structural)]
pub struct ObjectId(pub usize);

/// Identifier of a primitive in a compiled scene.
#[derive(Debug, Clone, Copy, PartialEq, Eq, Structural)]
pub struct RuntimePrimitiveId(pub usize);

/// Identifier of an instance in a compiled scene.
#[derive(Debug, Clone, Copy, PartialEq, Eq, Structural)]
pub struct RuntimeInstanceId(pub usize);

/// Counter of the changes recorded by a scene.
#[derive(Debug, Clone, Copy, PartialEq, Eq, Structural)]
pub struct SceneRevision(pub u64);

impl SceneRevision {
    /// The revision that follows this one.
    pub fn next(self) -> (r: SceneRevision)
        requires
            self.0 < u64::MAX,
        ensures
            r.0 == self.0 + 1,
    {
        SceneRevision(self.0 + 1)
    }
}

} // verus!
