use ray_tracing::asset::{Mesh, Object, Primitive};
use ray_tracing::error::{MaterialError, ObjectError, PrimitiveError, SceneError};
use ray_tracing::ids::{MaterialId, ObjectId, PrimitiveId, SceneRevision};
use ray_tracing::scene::Scene;

type TestScene = Scene<u32, (i32, i32, i32), u8>;

fn triangle_mesh() -> Mesh<(i32, i32, i32)> {
    Mesh::new(vec![(0, 0, 0), (1, 0, 0), (0, 1, 0)], vec![[0, 1, 2]])
}

#[test]
fn new_scene_holds_sphere_and_cube() {
    let scene = TestScene::new();
    assert_eq!(scene.primitive_assets().len(), 2);
    assert_eq!(scene.primitive_assets()[0].name(), "sphere");
    assert_eq!(scene.primitive_assets()[0].id(), PrimitiveId(0));
    assert!(matches!(scene.primitive_assets()[0].primitive(), Primitive::Sphere));
    assert_eq!(scene.primitive_assets()[1].name(), "cube");
    assert_eq!(scene.primitive_assets()[1].id(), PrimitiveId(1));
    assert!(matches!(scene.primitive_assets()[1].primitive(), Primitive::Cube));
    assert!(scene.material_assets().is_empty());
    assert!(scene.objects().is_empty());
    assert_eq!(scene.revision(), SceneRevision(2));
}

#[test]
fn added_items_get_their_positions_as_identifiers() {
    let mut scene = TestScene::new();
    assert_eq!(scene.add_material("red", 7), MaterialId(0));
    assert_eq!(scene.add_material("blue", 9), MaterialId(1));
    assert_eq!(scene.material_assets()[1].name(), "blue");
    assert_eq!(*scene.material_assets()[1].material(), 9);
    assert_eq!(scene.add_primitive_mesh("tri", triangle_mesh()), PrimitiveId(2));
    assert_eq!(scene.primitive_assets()[2].id(), PrimitiveId(2));
    let id = scene.add_object(Object::new("a", PrimitiveId(0), MaterialId(0), 1u8));
    assert_eq!(id, ObjectId(0));
    assert_eq!(scene.objects()[0].name(), "a");
    assert_eq!(scene.revision(), SceneRevision(6));
}

#[test]
fn change_material_keeps_name() {
    let mut scene = TestScene::new();
    scene.add_material("red", 7);
    assert_eq!(scene.change_material(MaterialId(0), 8), Ok(()));
    assert_eq!(scene.material_assets()[0].name(), "red");
    assert_eq!(*scene.material_assets()[0].material(), 8);
    assert_eq!(scene.revision(), SceneRevision(4));
}

#[test]
fn change_material_refuses_unknown_id_and_changes_nothing() {
    let mut scene = TestScene::new();
    let before = scene.revision();
    assert_eq!(
        scene.change_material(MaterialId(0), 8),
        Err(SceneError::Material(MaterialError::UnknownMaterial { material_id: MaterialId(0) }))
    );
    assert_eq!(scene.revision(), before);
}

#[test]
fn child_object_is_linked_both_ways() {
    let mut scene = TestScene::new();
    let parent = scene.add_object(Object::new("parent", PrimitiveId(0), MaterialId(0), 0u8));
    let child = scene
        .add_child_object(parent, Object::new("child", PrimitiveId(1), MaterialId(0), 0u8))
        .unwrap();
    assert_eq!(child, ObjectId(1));
    assert_eq!(scene.objects()[1].parent(), Some(parent));
    assert_eq!(scene.objects()[0].children(), &[ObjectId(1)]);
    assert_eq!(scene.objects()[0].parent(), None);
    // one change for the parent, two for the child
    assert_eq!(scene.revision(), SceneRevision(5));
}

#[test]
fn hierarchy_links_stay_consistent_over_edits() {
    let mut scene = TestScene::new();
    let root = scene.add_object(Object::new("root", PrimitiveId(0), MaterialId(0), 0u8));
    let a = scene.add_child_object(root, Object::new("a", PrimitiveId(0), MaterialId(0), 0u8)).unwrap();
    let other = scene.add_object(Object::new("other", PrimitiveId(1), MaterialId(0), 0u8));
    let b = scene.add_child_object(root, Object::new("b", PrimitiveId(1), MaterialId(0), 0u8)).unwrap();
    let leaf = scene.add_child_object(a, Object::new("leaf", PrimitiveId(1), MaterialId(0), 0u8)).unwrap();
    scene.set_transform(a, 3).unwrap();
    scene.change_visibility(leaf, false).unwrap();
    assert_eq!((root, a, other, b, leaf), (ObjectId(0), ObjectId(1), ObjectId(2), ObjectId(3), ObjectId(4)));
    let objects = scene.objects();
    for (i, o) in objects.iter().enumerate() {
        if let Some(p) = o.parent() {
            assert!(p.0 < i);
            assert!(objects[p.0].children().contains(&ObjectId(i)));
        }
        for c in o.children() {
            assert!(i < c.0 && c.0 < objects.len());
            assert_eq!(objects[c.0].parent(), Some(ObjectId(i)));
        }
    }
    assert_eq!(objects[0].children(), &[ObjectId(1), ObjectId(3)]);
    assert_eq!(objects[1].children(), &[ObjectId(4)]);
    assert_eq!(objects[2].parent(), None);
}

#[test]
fn child_of_unknown_parent_is_refused() {
    let mut scene = TestScene::new();
    let r = scene.add_child_object(ObjectId(3), Object::new("c", PrimitiveId(0), MaterialId(0), 0u8));
    assert_eq!(r, Err(SceneError::Object(ObjectError::UnknownObject { object_id: ObjectId(3) })));
    assert!(scene.objects().is_empty());
    assert_eq!(scene.revision(), SceneRevision(2));
}

#[test]
fn transform_and_visibility_changes() {
    let mut scene = TestScene::new();
    let id = scene.add_object(Object::new("a", PrimitiveId(0), MaterialId(0), 0u8));
    assert!(scene.objects()[0].is_visible());
    assert_eq!(scene.set_transform(id, 5), Ok(()));
    assert_eq!(*scene.objects()[0].transform(), 5);
    assert_eq!(scene.change_visibility(id, false), Ok(()));
    assert!(!scene.objects()[0].is_visible());
    assert_eq!(
        scene.set_transform(ObjectId(1), 5),
        Err(SceneError::Object(ObjectError::UnknownObject { object_id: ObjectId(1) }))
    );
    assert_eq!(
        scene.change_visibility(ObjectId(9), true),
        Err(SceneError::Object(ObjectError::UnknownObject { object_id: ObjectId(9) }))
    );
    assert_eq!(scene.revision(), SceneRevision(5));
}

#[test]
fn mesh_geometry_change_overwrites_range() {
    let mut scene = TestScene::new();
    let id = scene.add_primitive_mesh("tri", triangle_mesh());
    assert_eq!(scene.change_primitive_mesh_geometry(id, 1, &[(5, 5, 5), (6, 6, 6)]), Ok(()));
    match scene.primitive_assets()[2].primitive() {
        Primitive::Mesh(m) => {
            assert_eq!(m.vertices(), &[(0, 0, 0), (5, 5, 5), (6, 6, 6)]);
            assert_eq!(m.indices(), &[[0, 1, 2]]);
        }
        _ => panic!("not a mesh"),
    }
}

#[test]
fn mesh_geometry_change_errors() {
    let mut scene = TestScene::new();
    let id = scene.add_primitive_mesh("tri", triangle_mesh());
    assert_eq!(
        scene.change_primitive_mesh_geometry(PrimitiveId(7), 0, &[]),
        Err(SceneError::Primitive(PrimitiveError::UnknownPrimitive { primitive_id: PrimitiveId(7) }))
    );
    assert_eq!(
        scene.change_primitive_mesh_geometry(PrimitiveId(0), 0, &[]),
        Err(SceneError::Primitive(PrimitiveError::NotAMesh { primitive_id: PrimitiveId(0) }))
    );
    assert_eq!(
        scene.change_primitive_mesh_geometry(id, 2, &[(1, 1, 1), (2, 2, 2)]),
        Err(SceneError::Primitive(PrimitiveError::VertexRangeOutOfBounds {
            primitive_id: id,
            start: 2,
            count: 3,
            vertex_count: 2,
        }))
    );
    assert_eq!(scene.revision(), SceneRevision(3));
}

#[test]
fn mesh_topology_change_replaces_mesh() {
    let mut scene = TestScene::new();
    let id = scene.add_primitive_mesh("tri", triangle_mesh());
    let quad = Mesh::new(vec![(0, 0, 0), (1, 0, 0), (1, 1, 0), (0, 1, 0)], vec![[0, 1, 2], [0, 2, 3]]);
    assert_eq!(scene.change_primitive_mesh_topology(id, quad), Ok(()));
    match scene.primitive_assets()[2].primitive() {
        Primitive::Mesh(m) => assert_eq!(m.indices().len(), 2),
        _ => panic!("not a mesh"),
    }
    assert_eq!(scene.primitive_assets()[2].name(), "tri");
    assert_eq!(
        scene.change_primitive_mesh_topology(PrimitiveId(1), triangle_mesh()),
        Err(SceneError::Primitive(PrimitiveError::NotAMesh { primitive_id: PrimitiveId(1) }))
    );
    assert_eq!(
        scene.change_primitive_mesh_topology(PrimitiveId(5), triangle_mesh()),
        Err(SceneError::Primitive(PrimitiveError::UnknownPrimitive { primitive_id: PrimitiveId(5) }))
    );
}

#[test]
fn clear_change_keeps_revision() {
    let mut scene = TestScene::new();
    scene.add_material("m", 1);
    let r = scene.revision();
    scene.clear_change();
    assert_eq!(scene.revision(), r);
}

#[test]
fn mesh_index_check() {
    assert!(triangle_mesh().has_valid_indices());
    let bad: Mesh<(i32, i32, i32)> = Mesh::new(vec![(0, 0, 0)], vec![[0, 0, 1]]);
    assert!(!bad.has_valid_indices());
    let empty: Mesh<(i32, i32, i32)> = Mesh::new(vec![], vec![]);
    assert!(empty.has_valid_indices());
}

#[test]
fn dependency_graph_text() {
    let mut scene = TestScene::new();
    scene.add_material("red", 1);
    let p = scene.add_object(Object::new("root", PrimitiveId(0), MaterialId(0), 0u8));
    scene.add_child_object(p, Object::new("leaf", PrimitiveId(1), MaterialId(0), 0u8)).unwrap();
    let g = scene.make_mermaid_graph_of_instance_dependency();
    let expected = "graph TD\n".to_string()
        + "    classDef objClass fill:#e1f5fe,stroke:#0277bd,stroke-width:2px,color:#000;\n"
        + "    classDef primClass fill:#fff3e0,stroke:#ef6c00,stroke-width:2px,color:#000;\n"
        + "    classDef matClass fill:#e8f5e9,stroke:#2e7d32,stroke-width:2px,color:#000;\n\n"
        + "    obj0[(\"Object: root\")]:::objClass\n"
        + "    obj1[(\"Object: leaf\")]:::objClass\n"
        + "\n"
        + "    prim0[\"Primitive: sphere\"]:::primClass\n"
        + "    prim1[\"Primitive: cube\"]:::primClass\n"
        + "\n"
        + "    mat0([\"Material: red\"]):::matClass\n"
        + "\n"
        + "    obj0 --> obj1\n"
        + "    obj0 -.-> prim0\n"
        + "    obj0 -.-> mat0\n"
        + "    obj1 -.-> prim1\n"
        + "    obj1 -.-> mat0\n";
    assert_eq!(g, expected);
}

#[test]
fn dependency_graph_with_two_digit_ids() {
    let mut scene = TestScene::new();
    for k in 0..12u32 {
        scene.add_material("m", k);
    }
    let g = scene.make_mermaid_graph_of_instance_dependency();
    assert!(g.contains("    mat11([\"Material: m\"]):::matClass\n"));
    assert!(g.ends_with("    mat11([\"Material: m\"]):::matClass\n\n"));
}
