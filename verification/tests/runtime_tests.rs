use ray_tracing::asset::{Mesh, Object};
use ray_tracing::error::{MeshUpdateError, SceneCompileError};
use ray_tracing::ids::{MaterialId, ObjectId, PrimitiveId, RuntimeInstanceId, RuntimePrimitiveId};
use ray_tracing::runtime::{RuntimePrimitive, RuntimeScene, SceneCompiler};
use ray_tracing::scene::Scene;

type V = (i32, i32, i32);
type TestScene = Scene<u32, V, u8>;

fn mesh(n: i32) -> Mesh<V> {
    Mesh::new(vec![(n, 0, 0), (n, 1, 0), (n, 0, 1)], vec![[0, 1, 2]])
}

fn two_mesh_scene() -> TestScene {
    let mut scene = TestScene::new();
    scene.add_material("m", 5);
    scene.add_primitive_mesh("a", mesh(1));
    scene.add_primitive_mesh("b", mesh(2));
    scene.add_object(Object::new("o0", PrimitiveId(0), MaterialId(0), 1u8));
    scene.add_object(Object::new("o1", PrimitiveId(3), MaterialId(0), 2u8));
    scene
}

fn compile(scene: &TestScene, transforms: &[Option<u16>]) -> Result<RuntimeScene<u32, V, u16>, SceneCompileError> {
    SceneCompiler::compile(scene, transforms)
}

#[test]
fn compile_lays_meshes_into_one_buffer() {
    let scene = two_mesh_scene();
    let rs = compile(&scene, &[Some(10), Some(20)]).unwrap();
    assert_eq!(rs.materials(), &[5]);
    assert_eq!(rs.primitives().len(), 4);
    assert!(matches!(rs.primitives()[0], RuntimePrimitive::SphereUnit));
    assert!(matches!(rs.primitives()[1], RuntimePrimitive::CubeUnit));
    match &rs.primitives()[3] {
        RuntimePrimitive::MeshTriangles(m) => {
            assert_eq!((m.vertex_range.start, m.vertex_range.end), (3, 6));
            assert_eq!(m.indices, vec![[0, 1, 2]]);
        }
        _ => panic!("not a mesh"),
    }
    assert_eq!(rs.primitive_vertices(), &[(1, 0, 0), (1, 1, 0), (1, 0, 1), (2, 0, 0), (2, 1, 0), (2, 0, 1)]);
    assert_eq!(rs.instances().len(), 2);
    assert_eq!(rs.instances()[1].object_name(), "o1");
    assert_eq!(rs.instances()[1].primitive_id(), RuntimePrimitiveId(3));
    assert_eq!(rs.instances()[1].material_id(), MaterialId(0));
    assert_eq!(*rs.instances()[1].transform(), 20);
}

#[test]
fn compiled_identifiers_keep_positions() {
    let scene = two_mesh_scene();
    let rs = compile(&scene, &[Some(10), Some(20)]).unwrap();
    assert_eq!(rs.runtime_primitive_id_of(PrimitiveId(2)), Some(RuntimePrimitiveId(2)));
    assert_eq!(rs.runtime_primitive_id_of(PrimitiveId(4)), None);
    assert_eq!(rs.runtime_instance_id_of(ObjectId(1)), Some(RuntimeInstanceId(1)));
    assert_eq!(rs.runtime_instance_id_of(ObjectId(2)), None);
}

#[test]
fn compile_reports_first_failing_object() {
    let mut scene = two_mesh_scene();
    scene.add_object(Object::new("bad_mat", PrimitiveId(0), MaterialId(4), 0u8));
    scene.add_object(Object::new("bad_prim", PrimitiveId(9), MaterialId(0), 0u8));
    assert_eq!(
        compile(&scene, &[Some(1), Some(1), Some(1), Some(1)]).err(),
        Some(SceneCompileError::InvalidMaterialId { object_id: ObjectId(2), material_id: MaterialId(4) })
    );
    assert_eq!(
        compile(&scene, &[Some(1), None, Some(1), Some(1)]).err(),
        Some(SceneCompileError::NonInvertibleTransform { object_id: ObjectId(1) })
    );
}

#[test]
fn compile_rejects_unknown_primitive() {
    let mut scene = TestScene::new();
    scene.add_material("m", 5);
    scene.add_object(Object::new("x", PrimitiveId(2), MaterialId(0), 0u8));
    assert_eq!(
        compile(&scene, &[Some(1)]).err(),
        Some(SceneCompileError::InvalidPrimitiveId { object_id: ObjectId(0), primitive_id: PrimitiveId(2) })
    );
}

#[test]
fn compile_empty_scene() {
    let scene = TestScene::new();
    let rs = compile(&scene, &[]).unwrap();
    assert_eq!(rs.primitives().len(), 2);
    assert!(rs.instances().is_empty());
    assert!(rs.primitive_vertices().is_empty());
}

#[test]
fn update_mesh_vertices_reads_back() {
    let scene = two_mesh_scene();
    let mut rs = compile(&scene, &[Some(10), Some(20)]).unwrap();
    assert_eq!(rs.update_mesh_vertices(PrimitiveId(2), &[(7, 7, 7), (8, 8, 8), (9, 9, 9)]), Ok(()));
    assert_eq!(rs.primitive_vertices(), &[(7, 7, 7), (8, 8, 8), (9, 9, 9), (2, 0, 0), (2, 1, 0), (2, 0, 1)]);
}

#[test]
fn update_mesh_vertices_errors() {
    let scene = two_mesh_scene();
    let mut rs = compile(&scene, &[Some(10), Some(20)]).unwrap();
    assert_eq!(
        rs.update_mesh_vertices(PrimitiveId(8), &[]),
        Err(MeshUpdateError::UnknownPrimitive(PrimitiveId(8)))
    );
    assert_eq!(rs.update_mesh_vertices(PrimitiveId(1), &[]), Err(MeshUpdateError::NotAMesh(PrimitiveId(1))));
    assert_eq!(
        rs.update_mesh_vertices(PrimitiveId(3), &[(0, 0, 0)]),
        Err(MeshUpdateError::VertexCountMismatch { expected: 3, got: 1 })
    );
    assert_eq!(rs.primitive_vertices()[3], (2, 0, 0));
}

#[test]
fn edit_then_compile_matches_compile_then_update() {
    let mut scene = two_mesh_scene();
    let mut rs = compile(&scene, &[Some(10), Some(20)]).unwrap();
    let new = [(4, 4, 4), (5, 5, 5), (6, 6, 6)];
    rs.update_mesh_vertices(PrimitiveId(3), &new).unwrap();
    scene.change_primitive_mesh_geometry(PrimitiveId(3), 0, &new).unwrap();
    let recompiled = compile(&scene, &[Some(10), Some(20)]).unwrap();
    assert_eq!(recompiled.primitive_vertices(), rs.primitive_vertices());
}

#[test]
fn update_instance_transform_by_object() {
    let scene = two_mesh_scene();
    let mut rs = compile(&scene, &[Some(10), Some(20)]).unwrap();
    assert!(rs.update_instance_transform(ObjectId(0), 99));
    assert_eq!(*rs.instances()[0].transform(), 99);
    assert_eq!(*rs.instances()[1].transform(), 20);
    assert!(!rs.update_instance_transform(ObjectId(5), 1));
}
