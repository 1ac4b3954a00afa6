use vstd::prelude::*;

use std::collections::HashMap;

use crate::asset::{
    overwritten, MaterialAssetView, MeshView, Primitive, PrimitiveAssetView, PrimitiveView,
};
use crate::error::{MeshUpdateError, SceneCompileError};
use crate::ids::{MaterialId, ObjectId, PrimitiveId, RuntimeInstanceId, RuntimePrimitiveId};
use crate::scene::{Scene, SceneView, VertexRange};

verus! {

broadcast use vstd::std_specs::hash::group_hash_axioms;

/// A mesh in a compiled scene: a range of the shared vertex buffer and triangles whose
/// indices count from the start of that range.
#[derive(Debug, Clone)]
pub struct RuntimeMeshRef {
    pub vertex_range: VertexRange,
    pub indices: Vec<[u32; 3]>,
}

/// What a compiled primitive holds.
pub enum RuntimePrimitiveView {
    SphereUnit,
    CubeUnit,
    MeshTriangles { vertex_range: VertexRange, indices: Seq<[u32; 3]> },
}

/// A primitive of a compiled scene.
#[derive(Debug, Clone)]
pub enum RuntimePrimitive {
    SphereUnit,
    CubeUnit,
    MeshTriangles(RuntimeMeshRef),
}

impl View for RuntimePrimitive {
    type V = RuntimePrimitiveView;

    open spec fn view(&self) -> RuntimePrimitiveView {
        match self {
            RuntimePrimitive::SphereUnit => RuntimePrimitiveView::SphereUnit,
            RuntimePrimitive::CubeUnit => RuntimePrimitiveView::CubeUnit,
            RuntimePrimitive::MeshTriangles(m) => RuntimePrimitiveView::MeshTriangles {
                vertex_range: m.vertex_range,
                indices: m.indices@,
            },
        }
    }
}

/// What a compiled instance holds.
pub struct RuntimeInstanceView<R> {
    pub object_name: Seq<char>,
    pub primitive_id: RuntimePrimitiveId,
    pub material_id: MaterialId,
    pub transform: R,
}

/// An object of a compiled scene.
#[derive(Debug, Clone)]
pub struct RuntimeInstance<R> {
    object_name: String,
    primitive_id: RuntimePrimitiveId,
    material_id: MaterialId,
    transform: R,
}

impl<R> View for RuntimeInstance<R> {
    type V = RuntimeInstanceView<R>;

    closed spec fn view(&self) -> RuntimeInstanceView<R> {
        RuntimeInstanceView {
            object_name: self.object_name@,
            primitive_id: self.primitive_id,
            material_id: self.material_id,
            transform: self.transform,
        }
    }
}

impl<R> RuntimeInstance<R> {
    /// A compiled instance.
    pub fn new(
        object_name: String,
        primitive_id: RuntimePrimitiveId,
        material_id: MaterialId,
        transform: R,
    ) -> (r: RuntimeInstance<R>)
        ensures
            r@ == (RuntimeInstanceView {
                object_name: object_name@,
                primitive_id,
                material_id,
                transform,
            }),
    {
        RuntimeInstance { object_name, primitive_id, material_id, transform }
    }

    /// The name of the object that the instance was compiled from.
    pub fn object_name(&self) -> (r: &str)
        ensures
            r@ == self@.object_name,
    {
        self.object_name.as_str()
    }

    /// The compiled primitive that the instance draws.
    pub fn primitive_id(&self) -> (r: RuntimePrimitiveId)
        ensures
            r == self@.primitive_id,
    {
        self.primitive_id
    }

    /// The material that the instance is drawn with.
    pub fn material_id(&self) -> (r: MaterialId)
        ensures
            r == self@.material_id,
    {
        self.material_id
    }

    /// The transform.
    pub fn transform(&self) -> (r: &R)
        ensures
            *r == self@.transform,
    {
        &self.transform
    }

    /// Replaces the transform; nothing else changes.
    pub fn set_transform(&mut self, transform: R)
        ensures
            final(self)@ == (RuntimeInstanceView { transform, ..old(self)@ }),
    {
        self.transform = transform;
    }
}

/// What a compiled scene holds.
pub struct RuntimeSceneView<M, V, R> {
    pub materials: Seq<M>,
    pub primitives: Seq<RuntimePrimitiveView>,
    pub primitive_vertices: Seq<V>,
    pub instances: Seq<RuntimeInstanceView<R>>,
    pub primitive_map: Map<usize, RuntimePrimitiveId>,
    pub object_map: Map<usize, RuntimeInstanceId>,
}

/// The invariant of a compiled scene: every mapped primitive exists, and every mesh
/// range lies inside the vertex buffer with its start before its end.
pub open spec fn runtime_wf<M, V, R>(s: RuntimeSceneView<M, V, R>) -> bool {
    &&& forall|k: usize|
        #[trigger] s.primitive_map.contains_key(k) ==> s.primitive_map[k].0 < s.primitives.len()
    &&& forall|i: int|
        0 <= i < s.primitives.len() ==> match #[trigger] s.primitives[i] {
            RuntimePrimitiveView::MeshTriangles { vertex_range, .. } => vertex_range.start
                <= vertex_range.end <= s.primitive_vertices.len(),
            _ => true,
        }
}

/// The scene in the form in which renderers read it: materials, primitives with one
/// shared vertex buffer, instances, and the maps from scene identifiers to compiled ones.
#[derive(Debug, Clone)]
pub struct RuntimeScene<M, V, R> {
    materials: Vec<M>,
    primitives: Vec<RuntimePrimitive>,
    primitive_vertices: Vec<V>,
    instances: Vec<RuntimeInstance<R>>,
    authoring_to_runtime_primitive: HashMap<usize, RuntimePrimitiveId>,
    authoring_to_runtime_object: HashMap<usize, RuntimeInstanceId>,
}

impl<M, V, R> View for RuntimeScene<M, V, R> {
    type V = RuntimeSceneView<M, V, R>;

    closed spec fn view(&self) -> RuntimeSceneView<M, V, R> {
        RuntimeSceneView {
            materials: self.materials@,
            primitives: self.primitives@.map_values(|p: RuntimePrimitive| p@),
            primitive_vertices: self.primitive_vertices@,
            instances: self.instances@.map_values(|i: RuntimeInstance<R>| i@),
            primitive_map: self.authoring_to_runtime_primitive@,
            object_map: self.authoring_to_runtime_object@,
        }
    }
}

impl<M, V, R> RuntimeScene<M, V, R> {
    /// The invariant of a compiled scene.
    pub open spec fn wf(&self) -> bool {
        runtime_wf(self@)
    }

    /// A compiled scene made of the given parts, taken as they are.
    pub fn new(
        materials: Vec<M>,
        primitives: Vec<RuntimePrimitive>,
        primitive_vertices: Vec<V>,
        instances: Vec<RuntimeInstance<R>>,
        authoring_to_runtime_primitive: HashMap<usize, RuntimePrimitiveId>,
        authoring_to_runtime_object: HashMap<usize, RuntimeInstanceId>,
    ) -> (r: RuntimeScene<M, V, R>)
        ensures
            r@ == (RuntimeSceneView {
                materials: materials@,
                primitives: primitives@.map_values(|p: RuntimePrimitive| p@),
                primitive_vertices: primitive_vertices@,
                instances: instances@.map_values(|i: RuntimeInstance<R>| i@),
                primitive_map: authoring_to_runtime_primitive@,
                object_map: authoring_to_runtime_object@,
            }),
    {
        RuntimeScene {
            materials,
            primitives,
            primitive_vertices,
            instances,
            authoring_to_runtime_primitive,
            authoring_to_runtime_object,
        }
    }

    /// The materials, by material identifier.
    pub fn materials(&self) -> (r: &[M])
        ensures
            r@ == self@.materials,
    {
        self.materials.as_slice()
    }

    /// The compiled primitives.
    pub fn primitives(&self) -> (r: &[RuntimePrimitive])
        ensures
            r@.map_values(|p: RuntimePrimitive| p@) == self@.primitives,
    {
        self.primitives.as_slice()
    }

    /// The shared vertex buffer of all meshes.
    pub fn primitive_vertices(&self) -> (r: &[V])
        ensures
            r@ == self@.primitive_vertices,
    {
        self.primitive_vertices.as_slice()
    }

    /// The compiled instances.
    pub fn instances(&self) -> (r: &[RuntimeInstance<R>])
        ensures
            r@.map_values(|i: RuntimeInstance<R>| i@) == self@.instances,
    {
        self.instances.as_slice()
    }

    /// The compiled primitive that a scene primitive became, if any.
    pub fn runtime_primitive_id_of(&self, primitive_id: PrimitiveId) -> (r: Option<
        RuntimePrimitiveId,
    >)
        ensures
            r == (if self@.primitive_map.contains_key(primitive_id.0) {
                Some(self@.primitive_map[primitive_id.0])
            } else {
                None
            }),
    {
        match self.authoring_to_runtime_primitive.get(&primitive_id.0) {
            Some(id) => Some(*id),
            None => None,
        }
    }

    /// The compiled instance that a scene object became, if any.
    pub fn runtime_instance_id_of(&self, object_id: ObjectId) -> (r: Option<RuntimeInstanceId>)
        ensures
            r == (if self@.object_map.contains_key(object_id.0) {
                Some(self@.object_map[object_id.0])
            } else {
                None
            }),
    {
        match self.authoring_to_runtime_object.get(&object_id.0) {
            Some(id) => Some(*id),
            None => None,
        }
    }

    /// Replaces the transform of the instance that a scene object became; answers
    /// whether there was such an instance.
    pub fn update_instance_transform(&mut self, object_id: ObjectId, transform: R) -> (r: bool)
        ensures
            r == (old(self)@.object_map.contains_key(object_id.0) && old(self)@.object_map[object_id.0].0
                < old(self)@.instances.len()),
            r ==> final(self)@ == (RuntimeSceneView {
                instances: old(self)@.instances.update(
                    old(self)@.object_map[object_id.0].0 as int,
                    RuntimeInstanceView {
                        transform,
                        ..old(self)@.instances[old(self)@.object_map[object_id.0].0 as int]
                    },
                ),
                ..old(self)@
            }),
            !r ==> final(self)@ == old(self)@,
    {
        let instance_id = match self.runtime_instance_id_of(object_id) {
            Some(id) => id,
            None => {
                return false;
            },
        };
        if instance_id.0 >= self.instances.len() {
            return false;
        }
        let ghost old_view = self@;
        self.instances[instance_id.0].set_transform(transform);
        proof {
            assert(self.instances@.map_values(|i: RuntimeInstance<R>| i@) =~= old_view.instances.update(
                instance_id.0 as int,
                RuntimeInstanceView { transform, ..old_view.instances[instance_id.0 as int] },
            ));
        }
        true
    }
}

impl<M, V: Copy, R> RuntimeScene<M, V, R> {
    /// Overwrites the vertices of a compiled mesh with as many new ones as it has.
    pub fn update_mesh_vertices(&mut self, primitive_id: PrimitiveId, new_vertices: &[V]) -> (r:
        Result<(), MeshUpdateError>)
        requires
            old(self).wf(),
        ensures
            final(self).wf(),
            !old(self)@.primitive_map.contains_key(primitive_id.0) ==> r == Err::<
                (),
                MeshUpdateError,
            >(MeshUpdateError::UnknownPrimitive(primitive_id)) && final(self)@ == old(self)@,
            old(self)@.primitive_map.contains_key(primitive_id.0) ==> ({
                let p = old(self)@.primitives[old(self)@.primitive_map[primitive_id.0].0 as int];
                &&& !(p is MeshTriangles) ==> r == Err::<(), MeshUpdateError>(
                    MeshUpdateError::NotAMesh(primitive_id),
                ) && final(self)@ == old(self)@
                &&& p matches RuntimePrimitiveView::MeshTriangles { vertex_range, .. } ==> {
                    let expected = vertex_range.end - vertex_range.start;
                    &&& new_vertices@.len() != expected ==> r == Err::<(), MeshUpdateError>(
                        MeshUpdateError::VertexCountMismatch {
                            expected: expected as usize,
                            got: new_vertices@.len() as usize,
                        },
                    ) && final(self)@ == old(self)@
                    &&& new_vertices@.len() == expected ==> r is Ok && final(self)@ == (
                    RuntimeSceneView {
                        primitive_vertices: overwritten(
                            old(self)@.primitive_vertices,
                            vertex_range.start as int,
                            new_vertices@,
                        ),
                        ..old(self)@
                    })
                }
            }),
    {
        let runtime_id = match self.authoring_to_runtime_primitive.get(&primitive_id.0) {
            Some(id) => *id,
            None => {
                return Err(MeshUpdateError::UnknownPrimitive(primitive_id));
            },
        };
        let range = match &self.primitives[runtime_id.0] {
            RuntimePrimitive::MeshTriangles(mesh_ref) => mesh_ref.vertex_range,
            _ => {
                return Err(MeshUpdateError::NotAMesh(primitive_id));
            },
        };
        proof {
            assert(self@.primitives[runtime_id.0 as int] == self.primitives@[runtime_id.0 as int]@);
        }
        let expected = (range.end - range.start) as usize;
        if new_vertices.len() != expected {
            return Err(
                MeshUpdateError::VertexCountMismatch { expected, got: new_vertices.len() },
            );
        }
        let ghost old_vertices = self.primitive_vertices@;
        let ghost pre = self@;
        proof {
            assert(range.start <= range.end <= old_vertices.len()) by {
                assert(match pre.primitives[runtime_id.0 as int] {
                    RuntimePrimitiveView::MeshTriangles { vertex_range, .. } => vertex_range.start
                        <= vertex_range.end <= pre.primitive_vertices.len(),
                    _ => true,
                });
            }
        }
        let start = range.start as usize;
        let n = new_vertices.len();
        let total = self.primitive_vertices.len();
        let mut k: usize = 0;
        while k < n
            invariant
                n == new_vertices@.len(),
                total == old_vertices.len(),
                self@ == (RuntimeSceneView { primitive_vertices: self.primitive_vertices@, ..pre }),
                k <= n,
                start + n <= old_vertices.len(),
                self.primitive_vertices@.len() == old_vertices.len(),
                forall|i: int|
                    0 <= i < old_vertices.len() ==> #[trigger] self.primitive_vertices@[i] == if start
                        <= i < start + k {
                        new_vertices@[i - start]
                    } else {
                        old_vertices[i]
                    },
            decreases n - k,
        {
            self.primitive_vertices.set(start + k, new_vertices[k]);
            k = k + 1;
        }
        proof {
            assert(self.primitive_vertices@ =~= overwritten(old_vertices, start as int, new_vertices@));
        }
        Ok(())
    }
}

/// The vertices of a shape: those of a mesh, none for the sphere and the cube.
pub open spec fn mesh_vertices_of<V>(p: PrimitiveView<V>) -> Seq<V> {
    match p {
        PrimitiveView::Mesh(m) => m.vertices,
        _ => Seq::<V>::empty(),
    }
}

/// The vertices of the meshes among the first `n` primitives, one mesh after another.
pub open spec fn vertices_before<V>(prims: Seq<PrimitiveAssetView<V>>, n: int) -> Seq<V>
    decreases n,
{
    if n <= 0 {
        Seq::<V>::empty()
    } else {
        vertices_before(prims, n - 1) + mesh_vertices_of(prims[n - 1].primitive)
    }
}

/// What primitive `i` becomes: a mesh refers to its own slice of the shared vertex
/// buffer, whose ends are cut to 32 bits.
pub open spec fn compiled_primitive<V>(prims: Seq<PrimitiveAssetView<V>>, i: int) -> RuntimePrimitiveView {
    match prims[i].primitive {
        PrimitiveView::Sphere => RuntimePrimitiveView::SphereUnit,
        PrimitiveView::Cube => RuntimePrimitiveView::CubeUnit,
        PrimitiveView::Mesh(m) => RuntimePrimitiveView::MeshTriangles {
            vertex_range: VertexRange {
                start: vertices_before(prims, i).len() as u32,
                end: vertices_before(prims, i + 1).len() as u32,
            },
            indices: m.indices,
        },
    }
}

/// Why object `i` cannot be compiled, if it cannot: its material is checked first, then
/// its primitive, then its transform (`None` among the compiled transforms).
pub open spec fn object_failure<M, V, T, R>(
    s: SceneView<M, V, T>,
    transforms: Seq<Option<R>>,
    i: int,
) -> Option<SceneCompileError> {
    let o = s.objects[i];
    if o.material_id.0 >= s.material_assets.len() {
        Some(
            SceneCompileError::InvalidMaterialId {
                object_id: ObjectId(i as usize),
                material_id: o.material_id,
            },
        )
    } else if o.primitive_id.0 >= s.primitive_assets.len() {
        Some(
            SceneCompileError::InvalidPrimitiveId {
                object_id: ObjectId(i as usize),
                primitive_id: o.primitive_id,
            },
        )
    } else if transforms[i] is None {
        Some(SceneCompileError::NonInvertibleTransform { object_id: ObjectId(i as usize) })
    } else {
        None
    }
}

/// The failure of the first object among the first `n` that cannot be compiled.
pub open spec fn first_failure<M, V, T, R>(
    s: SceneView<M, V, T>,
    transforms: Seq<Option<R>>,
    n: int,
) -> Option<SceneCompileError>
    decreases n,
{
    if n <= 0 {
        None
    } else {
        match first_failure(s, transforms, n - 1) {
            Some(e) => Some(e),
            None => object_failure(s, transforms, n - 1),
        }
    }
}

/// What object `i` becomes.
pub open spec fn compiled_instance<M, V, T, R>(
    s: SceneView<M, V, T>,
    transforms: Seq<Option<R>>,
    i: int,
) -> RuntimeInstanceView<R> {
    RuntimeInstanceView {
        object_name: s.objects[i].name,
        primitive_id: RuntimePrimitiveId(s.objects[i].primitive_id.0),
        material_id: s.objects[i].material_id,
        transform: transforms[i]->Some_0,
    }
}

/// The compiled form of a scene whose objects all compile.
pub open spec fn compiled_view<M, V, T, R>(
    s: SceneView<M, V, T>,
    transforms: Seq<Option<R>>,
) -> RuntimeSceneView<M, V, R> {
    RuntimeSceneView {
        materials: s.material_assets.map_values(|a: MaterialAssetView<M>| a.material),
        primitives: Seq::new(
            s.primitive_assets.len(),
            |i: int| compiled_primitive(s.primitive_assets, i),
        ),
        primitive_vertices: vertices_before(s.primitive_assets, s.primitive_assets.len() as int),
        instances: Seq::new(s.objects.len(), |i: int| compiled_instance(s, transforms, i)),
        primitive_map: Map::new(
            |k: usize| k < s.primitive_assets.len(),
            |k: usize| RuntimePrimitiveId(k),
        ),
        object_map: Map::new(|k: usize| k < s.objects.len(), |k: usize| RuntimeInstanceId(k)),
    }
}

/// The mesh vertices laid down before a primitive never outnumber those laid down
/// before a later one.
pub proof fn lemma_vertices_before_grow<V>(prims: Seq<PrimitiveAssetView<V>>, i: int, j: int)
    requires
        0 <= i <= j,
    ensures
        vertices_before(prims, i).len() <= vertices_before(prims, j).len(),
    decreases j,
{
    if j > i {
        lemma_vertices_before_grow(prims, i, j - 1);
    }
}

/// The vertices laid down before a primitive begin the vertices laid down before any
/// later primitive.
pub proof fn lemma_vertices_before_prefix<V>(prims: Seq<PrimitiveAssetView<V>>, i: int, j: int)
    requires
        0 <= i <= j,
    ensures
        vertices_before(prims, i).len() <= vertices_before(prims, j).len(),
        vertices_before(prims, j).subrange(0, vertices_before(prims, i).len() as int)
            == vertices_before(prims, i),
    decreases j,
{
    if j > i {
        lemma_vertices_before_prefix(prims, i, j - 1);
        let a = vertices_before(prims, i);
        let b = vertices_before(prims, j - 1);
        let c = vertices_before(prims, j);
        assert(c == b + mesh_vertices_of(prims[j - 1].primitive));
        assert(c.subrange(0, a.len() as int) =~= b.subrange(0, a.len() as int));
    } else {
        assert(vertices_before(prims, j).subrange(0, vertices_before(prims, j).len() as int)
            =~= vertices_before(prims, j));
    }
}

/// Compiling keeps every mesh's geometry: the slice of the shared buffer that a compiled
/// mesh refers to holds exactly the vertices of the scene mesh, with its triangles
/// unchanged, as long as the buffer fits a 32-bit range.
pub proof fn lemma_compiled_mesh_holds_its_vertices<M, V, T, R>(
    s: SceneView<M, V, T>,
    transforms: Seq<Option<R>>,
    i: int,
)
    requires
        0 <= i < s.primitive_assets.len(),
        s.primitive_assets[i].primitive is Mesh,
        vertices_before(s.primitive_assets, s.primitive_assets.len() as int).len() <= u32::MAX,
    ensures
        ({
            let cv = compiled_view(s, transforms);
            let mesh = s.primitive_assets[i].primitive->Mesh_0;
            cv.primitives[i] matches RuntimePrimitiveView::MeshTriangles { vertex_range, indices }
                && indices == mesh.indices && cv.primitive_vertices.subrange(
                vertex_range.start as int,
                vertex_range.end as int,
            ) == mesh.vertices
        }),
{
    let prims = s.primitive_assets;
    let n = prims.len() as int;
    let mesh = prims[i].primitive->Mesh_0;
    lemma_vertices_before_prefix(prims, i + 1, n);
    lemma_vertices_before_prefix(prims, i, i + 1);
    let a = vertices_before(prims, i);
    let b = vertices_before(prims, i + 1);
    let all = vertices_before(prims, n);
    assert(b == a + mesh.vertices);
    assert(all.subrange(a.len() as int, b.len() as int) =~= mesh.vertices) by {
        assert(all.subrange(0, b.len() as int) == b);
        assert forall|k: int| 0 <= k < mesh.vertices.len() implies all.subrange(
            a.len() as int,
            b.len() as int,
        )[k] == mesh.vertices[k] by {
            assert(all[a.len() + k] == all.subrange(0, b.len() as int)[a.len() + k]);
        }
    }
}

/// Compiling maps every scene primitive and every scene object to the compiled item at
/// the same position, and maps nothing else.
pub proof fn lemma_compiled_ids_keep_positions<M, V, T, R>(
    s: SceneView<M, V, T>,
    transforms: Seq<Option<R>>,
    k: usize,
)
    ensures
        compiled_view(s, transforms).primitive_map.contains_key(k) <==> k
            < s.primitive_assets.len(),
        k < s.primitive_assets.len() ==> compiled_view(s, transforms).primitive_map[k]
            == RuntimePrimitiveId(k),
        compiled_view(s, transforms).object_map.contains_key(k) <==> k < s.objects.len(),
        k < s.objects.len() ==> compiled_view(s, transforms).object_map[k] == RuntimeInstanceId(k)
            && compiled_view(s, transforms).instances[k as int] == compiled_instance(
            s,
            transforms,
            k as int,
        ),
{
}

/// After overwriting, the written range reads back the new values and every other
/// position keeps its old value.
pub proof fn lemma_overwritten_reads_back<V>(v: Seq<V>, start: int, new: Seq<V>)
    requires
        0 <= start,
        start + new.len() <= v.len(),
    ensures
        overwritten(v, start, new).len() == v.len(),
        overwritten(v, start, new).subrange(start, start + new.len()) == new,
        forall|k: int|
            0 <= k < v.len() && !(start <= k < start + new.len()) ==> #[trigger] overwritten(
                v,
                start,
                new,
            )[k] == v[k],
{
    assert(overwritten(v, start, new).subrange(start, start + new.len()) =~= new);
}

/// The primitive list with the vertices of mesh `i` overwritten from position `start` on.
pub open spec fn with_mesh_vertices_overwritten<V>(
    prims: Seq<PrimitiveAssetView<V>>,
    i: int,
    start: int,
    new: Seq<V>,
) -> Seq<PrimitiveAssetView<V>> {
    let mesh = prims[i].primitive->Mesh_0;
    prims.update(
        i,
        PrimitiveAssetView {
            primitive: PrimitiveView::Mesh(
                MeshView { vertices: overwritten(mesh.vertices, start, new), indices: mesh.indices },
            ),
            ..prims[i]
        },
    )
}

proof fn lemma_vertices_before_after_edit<V>(
    prims: Seq<PrimitiveAssetView<V>>,
    i: int,
    start: int,
    new: Seq<V>,
    n: int,
)
    requires
        0 <= i < prims.len(),
        prims[i].primitive is Mesh,
        0 <= start,
        start + new.len() <= prims[i].primitive->Mesh_0.vertices.len(),
        0 <= n <= prims.len(),
    ensures
        vertices_before(with_mesh_vertices_overwritten(prims, i, start, new), n).len()
            == vertices_before(prims, n).len(),
        n <= i ==> vertices_before(with_mesh_vertices_overwritten(prims, i, start, new), n)
            == vertices_before(prims, n),
        n > i ==> vertices_before(with_mesh_vertices_overwritten(prims, i, start, new), n)
            == overwritten(vertices_before(prims, n), vertices_before(prims, i).len() + start, new),
    decreases n,
{
    let p2 = with_mesh_vertices_overwritten(prims, i, start, new);
    if n > 0 {
        lemma_vertices_before_after_edit(prims, i, start, new, n - 1);
        let off = vertices_before(prims, i).len() + start;
        if n - 1 == i {
            let mesh = prims[i].primitive->Mesh_0;
            assert(vertices_before(p2, n) =~= overwritten(vertices_before(prims, n), off, new));
        } else if n - 1 > i {
            lemma_vertices_before_grow(prims, i + 1, n - 1);
            assert(mesh_vertices_of(p2[n - 1].primitive) == mesh_vertices_of(prims[n - 1].primitive));
            assert(vertices_before(p2, n) =~= overwritten(vertices_before(prims, n), off, new));
        } else {
            assert(mesh_vertices_of(p2[n - 1].primitive) == mesh_vertices_of(prims[n - 1].primitive));
        }
    }
}

/// Editing mesh vertices in the scene and compiling gives the compiled scene that
/// compiling first and then overwriting the same vertices in the shared buffer gives:
/// the buffer changes at the mesh's offset plus `start`, and nothing else changes.
pub proof fn lemma_edit_then_compile<M, V, T, R>(
    s: SceneView<M, V, T>,
    transforms: Seq<Option<R>>,
    i: int,
    start: int,
    new: Seq<V>,
)
    requires
        0 <= i < s.primitive_assets.len(),
        s.primitive_assets[i].primitive is Mesh,
        0 <= start,
        start + new.len() <= s.primitive_assets[i].primitive->Mesh_0.vertices.len(),
    ensures
        ({
            let edited = SceneView {
                primitive_assets: with_mesh_vertices_overwritten(s.primitive_assets, i, start, new),
                ..s
            };
            let cv = compiled_view(s, transforms);
            compiled_view(edited, transforms) == RuntimeSceneView {
                primitive_vertices: overwritten(
                    cv.primitive_vertices,
                    vertices_before(s.primitive_assets, i).len() + start,
                    new,
                ),
                ..cv
            }
        }),
{
    let prims = s.primitive_assets;
    let p2 = with_mesh_vertices_overwritten(prims, i, start, new);
    let edited = SceneView { primitive_assets: p2, ..s };
    let cv = compiled_view(s, transforms);
    let cv2 = compiled_view(edited, transforms);
    lemma_vertices_before_after_edit(prims, i, start, new, prims.len() as int);
    assert forall|j: int| 0 <= j < prims.len() implies compiled_primitive(p2, j)
        == compiled_primitive(prims, j) by {
        lemma_vertices_before_after_edit(prims, i, start, new, j);
        lemma_vertices_before_after_edit(prims, i, start, new, j + 1);
    }
    assert(cv2.primitives =~= cv.primitives);
    assert(cv2.instances =~= cv.instances);
    assert(cv2.materials =~= cv.materials);
    assert(cv2.primitive_map =~= cv.primitive_map);
    assert(cv2.object_map =~= cv.object_map);
}

/// A compiled scene is well formed whenever its shared vertex buffer holds no more
/// vertices than a 32-bit range can address.
pub proof fn lemma_compiled_view_wf<M, V, T, R>(s: SceneView<M, V, T>, transforms: Seq<Option<R>>)
    requires
        vertices_before(s.primitive_assets, s.primitive_assets.len() as int).len() <= u32::MAX,
    ensures
        runtime_wf(compiled_view(s, transforms)),
{
    let cv = compiled_view(s, transforms);
    let prims = s.primitive_assets;
    assert forall|i: int| 0 <= i < cv.primitives.len() implies match #[trigger] cv.primitives[i] {
        RuntimePrimitiveView::MeshTriangles { vertex_range, .. } => vertex_range.start
            <= vertex_range.end <= cv.primitive_vertices.len(),
        _ => true,
    } by {
        lemma_vertices_before_grow(prims, i, i + 1);
        lemma_vertices_before_grow(prims, i + 1, prims.len() as int);
    }
}

/// Once an object has failed, the first failure stays the same however many objects follow.
proof fn lemma_first_failure_stays<M, V, T, R>(
    s: SceneView<M, V, T>,
    transforms: Seq<Option<R>>,
    i: int,
    n: int,
)
    requires
        0 <= i < n,
        first_failure(s, transforms, i) is None,
        object_failure(s, transforms, i) is Some,
    ensures
        first_failure(s, transforms, n) == object_failure(s, transforms, i),
    decreases n,
{
    if n > i + 1 {
        lemma_first_failure_stays(s, transforms, i, n - 1);
    }
}

/// The compiled materials are the scene's materials, copied in order: material `k` of
/// the compiled scene is the material of scene material asset `k`.
pub proof fn lemma_compiled_materials_in_order<M, V, T, R>(
    s: SceneView<M, V, T>,
    transforms: Seq<Option<R>>,
)
    ensures
        compiled_view(s, transforms).materials.len() == s.material_assets.len(),
        forall|k: int|
            0 <= k < s.material_assets.len() ==> #[trigger] compiled_view(
                s,
                transforms,
            ).materials[k] == s.material_assets[k].material,
{
}

proof fn lemma_no_failure_before<M, V, T, R>(
    s: SceneView<M, V, T>,
    transforms: Seq<Option<R>>,
    n: int,
    i: int,
)
    requires
        0 <= i < n,
        first_failure(s, transforms, n) is None,
    ensures
        object_failure(s, transforms, i) is None,
    decreases n,
{
    if i < n - 1 {
        lemma_no_failure_before(s, transforms, n - 1, i);
    }
}

/// A scene compiles only when every object names a material and a primitive that the
/// scene holds and has an invertible transform; then every compiled instance names a
/// compiled material and a compiled primitive.
pub proof fn lemma_compiled_objects_name_existing_items<M, V, T, R>(
    s: SceneView<M, V, T>,
    transforms: Seq<Option<R>>,
)
    requires
        first_failure(s, transforms, s.objects.len() as int) is None,
    ensures
        forall|i: int|
            0 <= i < s.objects.len() ==> (#[trigger] s.objects[i]).material_id.0
                < s.material_assets.len() && s.objects[i].primitive_id.0 < s.primitive_assets.len()
                && transforms[i] is Some,
        forall|i: int|
            0 <= i < compiled_view(s, transforms).instances.len() ==> (#[trigger] compiled_view(
                s,
                transforms,
            ).instances[i]).material_id.0 < compiled_view(s, transforms).materials.len()
                && compiled_view(s, transforms).instances[i].primitive_id.0 < compiled_view(
                s,
                transforms,
            ).primitives.len(),
{
    assert forall|i: int| 0 <= i < s.objects.len() implies (#[trigger] s.objects[i]).material_id.0
        < s.material_assets.len() && s.objects[i].primitive_id.0 < s.primitive_assets.len()
        && transforms[i] is Some by {
        lemma_no_failure_before(s, transforms, s.objects.len() as int, i);
    }
}

/// An object that names a material beyond the scene's material list makes compiling
/// fail.
pub proof fn lemma_unknown_material_fails<M, V, T, R>(
    s: SceneView<M, V, T>,
    transforms: Seq<Option<R>>,
    i: int,
)
    requires
        0 <= i < s.objects.len(),
        s.objects[i].material_id.0 >= s.material_assets.len(),
    ensures
        first_failure(s, transforms, s.objects.len() as int) is Some,
{
    if first_failure(s, transforms, s.objects.len() as int) is None {
        lemma_no_failure_before(s, transforms, s.objects.len() as int, i);
    }
}

/// Appends the elements of `src` to `dst`.
fn append_all<A: Copy>(dst: &mut Vec<A>, src: &[A])
    ensures
        final(dst)@ == old(dst)@ + src@,
{
    let mut k: usize = 0;
    while k < src.len()
        invariant
            k <= src@.len(),
            dst@ == old(dst)@ + src@.subrange(0, k as int),
        decreases src@.len() - k,
    {
        dst.push(src[k]);
        k = k + 1;
        proof {
            assert(src@.subrange(0, k as int) =~= src@.subrange(0, k - 1).push(src@[k - 1]));
        }
    }
    proof {
        assert(src@.subrange(0, k as int) =~= src@);
    }
}

/// Turns an editable scene into its render-ready form.
pub struct SceneCompiler;

impl SceneCompiler {
    /// Compiles a scene. Materials are copied in order; primitives keep their positions,
    /// and the vertices of all meshes are laid one after another into one buffer; every
    /// object becomes the instance at its own position. `runtime_transforms` holds, for
    /// each object, the compiled form of its transform, or `None` where the transform
    /// cannot be inverted. The first object that cannot be compiled decides the error.
    pub fn compile<M: Copy, V: Copy, T, R: Copy>(
        scene: &Scene<M, V, T>,
        runtime_transforms: &[Option<R>],
    ) -> (r: Result<RuntimeScene<M, V, R>, SceneCompileError>)
        requires
            scene.wf(),
            runtime_transforms@.len() == scene@.objects.len(),
        ensures
            first_failure(scene@, runtime_transforms@, scene@.objects.len() as int) is Some
                ==> r == Err::<RuntimeScene<M, V, R>, SceneCompileError>(
                first_failure(scene@, runtime_transforms@, scene@.objects.len() as int)->Some_0,
            ),
            first_failure(scene@, runtime_transforms@, scene@.objects.len() as int) is None
                ==> (r matches Ok(rs) && rs@ == compiled_view(scene@, runtime_transforms@)),
            vertices_before(scene@.primitive_assets, scene@.primitive_assets.len() as int).len()
                <= u32::MAX ==> (r matches Ok(rs) ==> rs.wf()),
            r matches Ok(rs) ==> rs@.materials.len() == scene@.material_assets.len() && forall|
                k: int,
            |
                0 <= k < scene@.material_assets.len() ==> #[trigger] rs@.materials[k]
                    == scene@.material_assets[k].material,
            r matches Ok(rs) ==> forall|i: int|
                0 <= i < rs@.instances.len() ==> (#[trigger] rs@.instances[i]).material_id.0
                    < rs@.materials.len() && rs@.instances[i].primitive_id.0 < rs@.primitives.len(),
            (exists|i: int|
                0 <= i < scene@.objects.len() && (#[trigger] scene@.objects[i]).material_id.0
                    >= scene@.material_assets.len()) ==> r is Err,
    {
        proof {
            lemma_compiled_materials_in_order(scene@, runtime_transforms@);
            if first_failure(scene@, runtime_transforms@, scene@.objects.len() as int) is None {
                lemma_compiled_objects_name_existing_items(scene@, runtime_transforms@);
            }
            if exists|i: int|
                0 <= i < scene@.objects.len() && (#[trigger] scene@.objects[i]).material_id.0
                    >= scene@.material_assets.len() {
                let i = choose|i: int|
                    0 <= i < scene@.objects.len() && (#[trigger] scene@.objects[i]).material_id.0
                        >= scene@.material_assets.len();
                lemma_unknown_material_fails(scene@, runtime_transforms@, i);
            }
        }
        let ghost sv = scene@;
        let ghost prims = sv.primitive_assets;
        let ghost tr = runtime_transforms@;

        // Materials
        let material_assets = scene.material_assets();
        let mut materials: Vec<M> = Vec::new();
        let mut i: usize = 0;
        while i < material_assets.len()
            invariant
                i <= material_assets@.len(),
                material_assets@.map_values(|a: crate::asset::MaterialAsset<M>| a@)
                    == sv.material_assets,
                materials@ == sv.material_assets.subrange(0, i as int).map_values(
                    |a: MaterialAssetView<M>| a.material,
                ),
            decreases material_assets@.len() - i,
        {
            proof {
                assert(material_assets@.map_values(|a: crate::asset::MaterialAsset<M>| a@)[i as int]
                    == material_assets@[i as int]@);
            }
            materials.push(*material_assets[i].material());
            i = i + 1;
            proof {
                assert(materials@ =~= sv.material_assets.subrange(0, i as int).map_values(
                    |a: MaterialAssetView<M>| a.material,
                ));
            }
        }
        proof {
            assert(sv.material_assets.subrange(0, i as int) =~= sv.material_assets);
        }

        // Primitives
        let primitive_assets = scene.primitive_assets();
        let mut runtime_primitives: Vec<RuntimePrimitive> = Vec::new();
        let mut primitive_vertices: Vec<V> = Vec::new();
        let mut primitive_map: HashMap<usize, RuntimePrimitiveId> = HashMap::new();
        let mut i: usize = 0;
        while i < primitive_assets.len()
            invariant
                i <= primitive_assets@.len(),
                primitive_assets@.map_values(|a: crate::asset::PrimitiveAsset<V>| a@) == prims,
                scene.wf(),
                prims == scene@.primitive_assets,
                runtime_primitives@.len() == i,
                forall|j: int|
                    0 <= j < i ==> (#[trigger] runtime_primitives@[j])@ == compiled_primitive(
                        prims,
                        j,
                    ),
                primitive_vertices@ == vertices_before(prims, i as int),
                primitive_map@ == Map::new(|k: usize| k < i, |k: usize| RuntimePrimitiveId(k)),
            decreases primitive_assets@.len() - i,
        {
            let asset = &primitive_assets[i];
            proof {
                assert(primitive_assets@.map_values(|a: crate::asset::PrimitiveAsset<V>| a@)[i as int]
                    == primitive_assets@[i as int]@);
                assert(prims[i as int].id == PrimitiveId(i));
            }
            let primitive_id = asset.id();
            let runtime_primitive_id = RuntimePrimitiveId(runtime_primitives.len());
            let runtime_primitive = match asset.primitive() {
                Primitive::Sphere => RuntimePrimitive::SphereUnit,
                Primitive::Cube => RuntimePrimitive::CubeUnit,
                Primitive::Mesh(mesh) => {
                    let start = primitive_vertices.len() as u32;
                    append_all(&mut primitive_vertices, mesh.vertices());
                    let end = primitive_vertices.len() as u32;
                    let mut indices: Vec<[u32; 3]> = Vec::new();
                    append_all(&mut indices, mesh.indices());
                    RuntimePrimitive::MeshTriangles(
                        RuntimeMeshRef { vertex_range: VertexRange { start, end }, indices },
                    )
                },
            };
            runtime_primitives.push(runtime_primitive);
            primitive_map.insert(primitive_id.0, runtime_primitive_id);
            i = i + 1;
            proof {
                assert(primitive_vertices@ =~= vertices_before(prims, i as int));
                assert(runtime_primitives@[i - 1]@ == compiled_primitive(prims, i - 1));
                assert(primitive_map@ =~= Map::new(
                    |k: usize| k < i,
                    |k: usize| RuntimePrimitiveId(k),
                ));
            }
        }

        // Objects
        let objects = scene.objects();
        let mut instances: Vec<RuntimeInstance<R>> = Vec::new();
        let mut object_map: HashMap<usize, RuntimeInstanceId> = HashMap::new();
        let mut i: usize = 0;
        while i < objects.len()
            invariant
                i <= objects@.len(),
                objects@.map_values(|o: crate::asset::Object<T>| o@) == sv.objects,
                sv == scene@,
                tr.len() == sv.objects.len(),
                tr == runtime_transforms@,
                materials@.len() == sv.material_assets.len(),
                primitive_map@ == Map::new(
                    |k: usize| k < prims.len(),
                    |k: usize| RuntimePrimitiveId(k),
                ),
                prims == sv.primitive_assets,
                first_failure(sv, tr, i as int) is None,
                instances@.len() == i,
                forall|j: int|
                    0 <= j < i ==> (#[trigger] instances@[j])@ == compiled_instance(sv, tr, j),
                object_map@ == Map::new(|k: usize| k < i, |k: usize| RuntimeInstanceId(k)),
            decreases objects@.len() - i,
        {
            let object = &objects[i];
            proof {
                assert(objects@.map_values(|o: crate::asset::Object<T>| o@)[i as int]
                    == objects@[i as int]@);
            }
            let object_id = ObjectId(i);
            if object.material_id().0 >= materials.len() {
                proof {
                    lemma_first_failure_stays(sv, tr, i as int, sv.objects.len() as int);
                }
                return Err(
                    SceneCompileError::InvalidMaterialId {
                        object_id,
                        material_id: object.material_id(),
                    },
                );
            }
            let runtime_primitive_id = match primitive_map.get(&object.primitive().0) {
                Some(id) => *id,
                None => {
                    proof {
                        lemma_first_failure_stays(sv, tr, i as int, sv.objects.len() as int);
                    }
                    return Err(
                        SceneCompileError::InvalidPrimitiveId {
                            object_id,
                            primitive_id: object.primitive(),
                        },
                    );
                },
            };
            let transform = match runtime_transforms[i] {
                Some(t) => t,
                None => {
                    proof {
                        lemma_first_failure_stays(sv, tr, i as int, sv.objects.len() as int);
                    }
                    return Err(SceneCompileError::NonInvertibleTransform { object_id });
                },
            };
            let runtime_instance_id = RuntimeInstanceId(instances.len());
            instances.push(
                RuntimeInstance::new(
                    String::from_str(object.name()),
                    runtime_primitive_id,
                    object.material_id(),
                    transform,
                ),
            );
            object_map.insert(object_id.0, runtime_instance_id);
            i = i + 1;
            proof {
                assert(instances@[i - 1]@ == compiled_instance(sv, tr, i - 1));
                assert(object_map@ =~= Map::new(
                    |k: usize| k < i,
                    |k: usize| RuntimeInstanceId(k),
                ));
            }
        }

        let result = RuntimeScene::new(
            materials,
            runtime_primitives,
            primitive_vertices,
            instances,
            primitive_map,
            object_map,
        );
        proof {
            let cv = compiled_view(sv, tr);
            assert(result@.primitives =~= cv.primitives);
            assert(result@.instances =~= cv.instances);
            assert(result@.materials =~= cv.materials);
            assert(result@.primitive_map =~= cv.primitive_map);
            assert(result@.object_map =~= cv.object_map);
            if vertices_before(prims, prims.len() as int).len() <= u32::MAX {
                lemma_compiled_view_wf(sv, tr);
            }
        }
        Ok(result)
    }
}

} // verus!
