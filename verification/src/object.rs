use vstd::prelude::*;

use crate::ids::MaterialId;

verus! {

/// A drawable: a primitive of type `P` with a material and a transform of type `T`.
#[derive(Debug, Clone)]
pub struct Object<P, T> {
    primitive: P,
    material_id: MaterialId,
    transform: T,
}

/// What a drawable holds.
pub struct ObjectView<P, T> {
    pub primitive: P,
    pub material_id: MaterialId,
    pub transform: T,
}

impl<P, T> View for Object<P, T> {
    type V = ObjectView<P, T>;

    closed spec fn view(&self) -> ObjectView<P, T> {
        ObjectView {
            primitive: self.primitive,
            material_id: self.material_id,
            transform: self.transform,
        }
    }
}

impl<P, T> Object<P, T> {
    /// A drawable with the given transform.
    pub fn new(primitive: P, material_id: MaterialId, transform: T) -> (r: Object<P, T>)
        ensures
            r@ == (ObjectView { primitive, material_id, transform }),
    {
        Object { primitive, material_id, transform }
    }

    /// The primitive.
    pub fn primitive(&self) -> (r: &P)
        ensures
            *r == self@.primitive,
    {
        &self.primitive
    }

    /// The material.
    pub fn material_id(&self) -> (r: MaterialId)
        ensures
            r == self@.material_id,
    {
        self.material_id
    }

    /// The transform.
    pub fn transform(&self) -> (r: &T)
        ensures
            *r == self@.transform,
    {
        &self.transform
    }

    /// The same drawable under another transform.
    pub fn with_transform(self, transform: T) -> (r: Object<P, T>)
        ensures
            r@ == (ObjectView { transform, ..self@ }),
    {
        let mut object = self;
        object.transform = transform;
        object
    }
}

/// A flat list of materials and drawables, each named by its position.
#[derive(Debug, Clone)]
pub struct Scene<M, O> {
    materials: Vec<M>,
    objects: Vec<O>,
}

/// What a flat scene holds.
pub struct SceneView<M, O> {
    pub materials: Seq<M>,
    pub objects: Seq<O>,
}

impl<M, O> View for Scene<M, O> {
    type V = SceneView<M, O>;

    closed spec fn view(&self) -> SceneView<M, O> {
        SceneView { materials: self.materials@, objects: self.objects@ }
    }
}

impl<M, O> Scene<M, O> {
    /// An empty scene.
    pub fn new() -> (r: Scene<M, O>)
        ensures
            r@ == (SceneView { materials: Seq::<M>::empty(), objects: Seq::<O>::empty() }),
    {
        Scene { materials: Vec::new(), objects: Vec::new() }
    }

    /// The materials.
    pub fn materials(&self) -> (r: &[M])
        ensures
            r@ == self@.materials,
    {
        self.materials.as_slice()
    }

    /// The drawables.
    pub fn objects(&self) -> (r: &[O])
        ensures
            r@ == self@.objects,
    {
        self.objects.as_slice()
    }

    /// Adds a material; its identifier is the number of materials before it.
    pub fn add_material(&mut self, material: M) -> (r: MaterialId)
        ensures
            r == MaterialId(old(self)@.materials.len() as usize),
            final(self)@ == (SceneView {
                materials: old(self)@.materials.push(material),
                objects: old(self)@.objects,
            }),
    {
        let material_id = MaterialId(self.materials.len());
        self.materials.push(material);
        material_id
    }

    /// Adds a drawable and answers its position.
    pub fn add_object(&mut self, object: O) -> (r: usize)
        ensures
            r == old(self)@.objects.len(),
            final(self)@ == (SceneView {
                materials: old(self)@.materials,
                objects: old(self)@.objects.push(object),
            }),
    {
        self.objects.push(object);
        self.objects.len() - 1
    }
}

} // verus!
