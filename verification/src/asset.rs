use vstd::prelude::*;

use crate::ids::{MaterialId, ObjectId, PrimitiveId};

verus! {

/// What a mesh holds: its vertices and its triangles, each triangle three vertex indices.
pub struct MeshView<V> {
    pub vertices: Seq<V>,
    pub indices: Seq<[u32; 3]>,
}

/// A triangle mesh over vertices of type `V`.
#[derive(Debug, Clone)]
pub struct Mesh<V> {
    vertices: Vec<V>,
    indices: Vec<[u32; 3]>,
}

/// Whether every index of every triangle names one of `vertex_count` vertices.
pub open spec fn indices_within(vertex_count: int, indices: Seq<[u32; 3]>) -> bool {
    forall|t: int, k: int|
        0 <= t < indices.len() && 0 <= k < 3 ==> (#[trigger] indices[t][k]) < vertex_count
}

impl<V> View for Mesh<V> {
    type V = MeshView<V>;

    closed spec fn view(&self) -> MeshView<V> {
        MeshView { vertices: self.vertices@, indices: self.indices@ }
    }
}

impl<V> Mesh<V> {
    /// A mesh made of the given vertices and triangles, taken as they are.
    pub fn new(vertices: Vec<V>, indices: Vec<[u32; 3]>) -> (r: Mesh<V>)
        ensures
            r@ == (MeshView { vertices: vertices@, indices: indices@ }),
    {
        Mesh { vertices, indices }
    }

    /// The vertices.
    pub fn vertices(&self) -> (r: &[V])
        ensures
            r@ == self@.vertices,
    {
        self.vertices.as_slice()
    }

    /// The vertices, for changing in place.
    pub fn vertices_mut(&mut self) -> (r: &mut Vec<V>)
        ensures
            r@ == old(self)@.vertices,
            final(self)@ == (MeshView { vertices: final(r)@, indices: old(self)@.indices }),
    {
        &mut self.vertices
    }

    /// The triangles, as triples of vertex indices.
    pub fn indices(&self) -> (r: &[[u32; 3]])
        ensures
            r@ == self@.indices,
    {
        self.indices.as_slice()
    }

    /// Whether every triangle index names one of the mesh's vertices.
    pub fn has_valid_indices(&self) -> (r: bool)
        ensures
            r == indices_within(self@.vertices.len() as int, self@.indices),
    {
        let n = self.vertices.len();
        let mut t: usize = 0;
        while t < self.indices.len()
            invariant
                n == self@.vertices.len(),
                t <= self@.indices.len(),
                indices_within(n as int, self@.indices.subrange(0, t as int)),
            decreases self@.indices.len() - t,
        {
            let tri: [u32; 3] = self.indices[t];
            if tri[0] as usize >= n || tri[1] as usize >= n || tri[2] as usize >= n {
                assert(!indices_within(n as int, self@.indices)) by {
                    let k: int = if tri[0] as usize >= n {
                        0
                    } else if tri[1] as usize >= n {
                        1
                    } else {
                        2
                    };
                    assert(self@.indices[t as int][k] >= n);
                }
                return false;
            }
            assert forall|a: int, k: int|
                0 <= a < t + 1 && 0 <= k < 3 implies (#[trigger] self@.indices.subrange(
                0,
                t + 1,
            )[a][k]) < n by {
                if a < t {
                    assert(self@.indices.subrange(0, t + 1)[a] == self@.indices.subrange(
                        0,
                        t as int,
                    )[a]);
                }
            }
            t = t + 1;
        }
        assert(self@.indices.subrange(0, t as int) =~= self@.indices);
        true
    }
}

/// The shape that a primitive asset describes.
pub enum PrimitiveView<V> {
    Sphere,
    Cube,
    Mesh(MeshView<V>),
}

/// A shape: the unit sphere, the unit cube, or a triangle mesh.
#[derive(Debug, Clone)]
pub enum Primitive<V> {
    Sphere,
    Cube,
    Mesh(Mesh<V>),
}

impl<V> View for Primitive<V> {
    type V = PrimitiveView<V>;

    open spec fn view(&self) -> PrimitiveView<V> {
        match self {
            Primitive::Sphere => PrimitiveView::Sphere,
            Primitive::Cube => PrimitiveView::Cube,
            Primitive::Mesh(m) => PrimitiveView::Mesh(m@),
        }
    }
}

/// What a primitive asset holds.
pub struct PrimitiveAssetView<V> {
    pub name: Seq<char>,
    pub id: PrimitiveId,
    pub primitive: PrimitiveView<V>,
}

/// A named shape of the scene, with the identifier under which objects refer to it.
#[derive(Debug, Clone)]
pub struct PrimitiveAsset<V> {
    name: String,
    id: PrimitiveId,
    primitive: Primitive<V>,
}

impl<V> View for PrimitiveAsset<V> {
    type V = PrimitiveAssetView<V>;

    closed spec fn view(&self) -> PrimitiveAssetView<V> {
        PrimitiveAssetView { name: self.name@, id: self.id, primitive: self.primitive@ }
    }
}

impl<V> PrimitiveAsset<V> {
    /// A named primitive asset.
    pub fn new(name: &str, id: PrimitiveId, primitive: Primitive<V>) -> (r: PrimitiveAsset<V>)
        ensures
            r@ == (PrimitiveAssetView { name: name@, id, primitive: primitive@ }),
    {
        PrimitiveAsset { name: String::from_str(name), id, primitive }
    }

    /// The name.
    pub fn name(&self) -> (r: &str)
        ensures
            r@ == self@.name,
    {
        self.name.as_str()
    }

    /// The shape.
    pub fn primitive(&self) -> (r: &Primitive<V>)
        ensures
            r@ == self@.primitive,
    {
        &self.primitive
    }

    /// The identifier.
    pub fn id(&self) -> (r: PrimitiveId)
        ensures
            r == self@.id,
    {
        self.id
    }

    /// Replaces the shape; name and identifier stay.
    pub(crate) fn replace_primitive(&mut self, primitive: Primitive<V>)
        ensures
            final(self)@ == (PrimitiveAssetView { primitive: primitive@, ..old(self)@ }),
    {
        self.primitive = primitive;
    }

    /// The shape, for changing in place; name and identifier stay.
    pub fn primitive_mut(&mut self) -> (r: &mut Primitive<V>)
        ensures
            r@ == old(self)@.primitive,
            final(self)@ == (PrimitiveAssetView {
                name: old(self)@.name,
                id: old(self)@.id,
                primitive: final(r)@,
            }),
    {
        &mut self.primitive
    }
}

/// `s` with the elements from position `start` on replaced by those of `new`.
pub open spec fn overwritten<V>(s: Seq<V>, start: int, new: Seq<V>) -> Seq<V> {
    Seq::new(
        s.len(),
        |i: int|
            if start <= i < start + new.len() {
                new[i - start]
            } else {
                s[i]
            },
    )
}

impl<V: Copy> PrimitiveAsset<V> {
    /// Overwrites the mesh vertices from position `start` on with `new_vertices`.
    pub(crate) fn write_mesh_vertices(&mut self, start: usize, new_vertices: &[V])
        requires
            old(self)@.primitive is Mesh,
            start + new_vertices@.len() <= old(self)@.primitive->Mesh_0.vertices.len(),
        ensures
            final(self)@ == (PrimitiveAssetView {
                primitive: PrimitiveView::Mesh(
                    MeshView {
                        vertices: overwritten(
                            old(self)@.primitive->Mesh_0.vertices,
                            start as int,
                            new_vertices@,
                        ),
                        indices: old(self)@.primitive->Mesh_0.indices,
                    },
                ),
                ..old(self)@
            }),
    {
        let ghost old_vertices = old(self)@.primitive->Mesh_0.vertices;
        let mut taken: Primitive<V> = Primitive::Sphere;
        std::mem::swap(&mut self.primitive, &mut taken);
        match taken {
            Primitive::Mesh(mut mesh) => {
                let n = new_vertices.len();
                let total = mesh.vertices.len();
                let ghost old_indices = mesh.indices@;
                let mut k: usize = 0;
                while k < n
                    invariant
                        n == new_vertices@.len(),
                        total == old_vertices.len(),
                        mesh.indices@ == old_indices,
                        k <= n,
                        start + n <= old_vertices.len(),
                        mesh.vertices@.len() == old_vertices.len(),
                        forall|i: int|
                            0 <= i < old_vertices.len() ==> #[trigger] mesh.vertices@[i] == if start
                                <= i < start + k {
                                new_vertices@[i - start]
                            } else {
                                old_vertices[i]
                            },
                    decreases n - k,
                {
                    mesh.vertices.set(start + k, new_vertices[k]);
                    k = k + 1;
                }
                assert(mesh.vertices@ =~= overwritten(old_vertices, start as int, new_vertices@));
                self.primitive = Primitive::Mesh(mesh);
                assert(old_indices == old(self)@.primitive->Mesh_0.indices);
            },
            _ => {
                self.primitive = taken;
            },
        }
    }

}

/// What a material asset holds.
pub struct MaterialAssetView<M> {
    pub name: Seq<char>,
    pub material: M,
}

/// A named material of the scene.
#[derive(Debug, Clone)]
pub struct MaterialAsset<M> {
    name: String,
    material: M,
}

impl<M> View for MaterialAsset<M> {
    type V = MaterialAssetView<M>;

    closed spec fn view(&self) -> MaterialAssetView<M> {
        MaterialAssetView { name: self.name@, material: self.material }
    }
}

impl<M> MaterialAsset<M> {
    /// A named material asset.
    pub fn new(name: &str, material: M) -> (r: MaterialAsset<M>)
        ensures
            r@ == (MaterialAssetView { name: name@, material }),
    {
        MaterialAsset { name: String::from_str(name), material }
    }

    /// The name.
    pub fn name(&self) -> (r: &str)
        ensures
            r@ == self@.name,
    {
        self.name.as_str()
    }

    /// The material.
    pub fn material(&self) -> (r: &M)
        ensures
            *r == self@.material,
    {
        &self.material
    }
}

/// What an object holds.
pub struct ObjectView<T> {
    pub name: Seq<char>,
    pub primitive_id: PrimitiveId,
    pub material_id: MaterialId,
    pub transform: T,
    pub parent: Option<ObjectId>,
    pub children: Seq<ObjectId>,
    pub is_visible: bool,
}

/// An object of the scene: a primitive drawn with a material under a transform,
/// placed in the object hierarchy.
#[derive(Debug, Clone)]
pub struct Object<T> {
    name: String,
    primitive_id: PrimitiveId,
    material_id: MaterialId,
    transform: T,
    parent: Option<ObjectId>,
    children: Vec<ObjectId>,
    is_visible: bool,
}

impl<T> View for Object<T> {
    type V = ObjectView<T>;

    closed spec fn view(&self) -> ObjectView<T> {
        ObjectView {
            name: self.name@,
            primitive_id: self.primitive_id,
            material_id: self.material_id,
            transform: self.transform,
            parent: self.parent,
            children: self.children@,
            is_visible: self.is_visible,
        }
    }
}

impl<T> Object<T> {
    /// A visible object without parent or children.
    pub fn new(name: &str, primitive_id: PrimitiveId, material_id: MaterialId, transform: T) -> (r:
        Object<T>)
        ensures
            r@ == (ObjectView {
                name: name@,
                primitive_id,
                material_id,
                transform,
                parent: None,
                children: Seq::<ObjectId>::empty(),
                is_visible: true,
            }),
    {
        Object {
            name: String::from_str(name),
            primitive_id,
            material_id,
            transform,
            parent: None,
            children: Vec::new(),
            is_visible: true,
        }
    }

    /// The name.
    pub fn name(&self) -> (r: &str)
        ensures
            r@ == self@.name,
    {
        self.name.as_str()
    }

    /// The primitive that the object draws.
    pub fn primitive(&self) -> (r: PrimitiveId)
        ensures
            r == self@.primitive_id,
    {
        self.primitive_id
    }

    /// The material that the object is drawn with.
    pub fn material_id(&self) -> (r: MaterialId)
        ensures
            r == self@.material_id,
    {
        self.material_id
    }

    /// The transform.
    pub fn transform(&self) -> (r: &T)
        ensures
            *r == self@.transform,
    {
        &self.transform
    }

    /// Replaces the transform; nothing else changes.
    pub fn set_transform(&mut self, transform: T)
        ensures
            final(self)@ == (ObjectView { transform, ..old(self)@ }),
    {
        self.transform = transform;
    }

    /// Shows or hides the object; nothing else changes.
    pub(crate) fn set_visible(&mut self, is_visible: bool)
        ensures
            final(self)@ == (ObjectView { is_visible, ..old(self)@ }),
    {
        self.is_visible = is_visible;
    }

    /// Records the parent of the object; nothing else changes.
    pub(crate) fn set_parent(&mut self, parent: ObjectId)
        ensures
            final(self)@ == (ObjectView { parent: Some(parent), ..old(self)@ }),
    {
        self.parent = Some(parent);
    }

    /// Appends a child to the object's children; nothing else changes.
    pub(crate) fn push_child(&mut self, child: ObjectId)
        ensures
            final(self)@ == (ObjectView { children: old(self)@.children.push(child), ..old(self)@ }),
    {
        self.children.push(child);
    }

    /// The parent object, if the object was added as a child.
    pub fn parent(&self) -> (r: Option<ObjectId>)
        ensures
            r == self@.parent,
    {
        self.parent
    }

    /// The children, in the order in which they were added.
    pub fn children(&self) -> (r: &[ObjectId])
        ensures
            r@ == self@.children,
    {
        self.children.as_slice()
    }

    /// Whether the object is visible.
    pub fn is_visible(&self) -> (r: bool)
        ensures
            r == self@.is_visible,
    {
        self.is_visible
    }
}

} // verus!
