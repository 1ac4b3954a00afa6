use vstd::prelude::*;

use crate::asset::{
    overwritten, MaterialAsset, MaterialAssetView, Mesh, MeshView, Object, ObjectView, Primitive,
    PrimitiveAsset, PrimitiveAssetView, PrimitiveView,
};
use crate::error::{MaterialError, ObjectError, PrimitiveError, SceneError};
use crate::ids::{MaterialId, ObjectId, PrimitiveId, SceneRevision};

verus! {

/// A range of vertex positions, `start` included and `end` excluded.
#[derive(Debug, Clone, Copy, PartialEq, Eq, Structural)]
pub struct VertexRange {
    pub start: u32,
    pub end: u32,
}

/// Why the scene changed.
#[derive(Debug, Clone, Copy, PartialEq, Eq, Structural)]
pub enum SceneChangeReason {
    MaterialAdded { material_id: MaterialId },
    MaterialChanged { material_id: MaterialId },
    PrimitiveAdded { primitive_id: PrimitiveId },
    MeshGeometryChanged { primitive_id: PrimitiveId, vertex_range: VertexRange },
    MeshTopologyChanged { primitive_id: PrimitiveId },
    ObjectAdded { object_id: ObjectId },
    TransformChanged { object_id: ObjectId },
    VisibilityChanged { object_id: ObjectId },
    HierarchyChanged { object_id: ObjectId },
}

/// One entry of the change history: the revision that a change produced, and its reason.
#[derive(Debug, Clone, Copy, PartialEq, Eq, Structural)]
pub struct SceneChange {
    pub revision: SceneRevision,
    pub reason: SceneChangeReason,
}

impl SceneChange {
    /// A history entry.
    pub fn new(revision: SceneRevision, reason: SceneChangeReason) -> (r: SceneChange)
        ensures
            r == (SceneChange { revision, reason }),
    {
        SceneChange { revision, reason }
    }
}

/// What a scene holds.
pub struct SceneView<M, V, T> {
    pub primitive_assets: Seq<PrimitiveAssetView<V>>,
    pub material_assets: Seq<MaterialAssetView<M>>,
    pub objects: Seq<ObjectView<T>>,
    pub revision: SceneRevision,
    pub changes: Seq<SceneChangeReason>,
    pub history: Seq<SceneChange>,
}

/// The reasons of a run of history entries.
pub open spec fn reasons_of(history: Seq<SceneChange>) -> Seq<SceneChangeReason> {
    history.map_values(|c: SceneChange| c.reason)
}

/// The invariant of a scene: primitive identifiers are the positions of their assets,
/// the history holds one entry per revision, numbered from one, and the pending changes
/// are the reasons of the latest history entries.
pub open spec fn scene_wf<M, V, T>(s: SceneView<M, V, T>) -> bool {
    &&& forall|i: int|
        0 <= i < s.primitive_assets.len() ==> (#[trigger] s.primitive_assets[i]).id == PrimitiveId(
            i as usize,
        )
    &&& s.history.len() == s.revision.0
    &&& forall|i: int|
        0 <= i < s.history.len() ==> (#[trigger] s.history[i]).revision == SceneRevision(
            (i + 1) as u64,
        )
    &&& s.changes.len() <= s.history.len()
    &&& s.changes == reasons_of(
        s.history.subrange(s.history.len() - s.changes.len(), s.history.len() as int),
    )
}

/// The scene after one more change has been recorded for `reason`.
pub open spec fn recorded<M, V, T>(s: SceneView<M, V, T>, reason: SceneChangeReason) -> SceneView<
    M,
    V,
    T,
> {
    SceneView {
        revision: SceneRevision((s.revision.0 + 1) as u64),
        changes: s.changes.push(reason),
        history: s.history.push(
            SceneChange { revision: SceneRevision((s.revision.0 + 1) as u64), reason },
        ),
        ..s
    }
}

/// The parent and child links of the objects agree: an object's parent comes before it
/// and lists it among its children, and every listed child comes after its parent and
/// names it as parent.
pub open spec fn hierarchy_consistent<T>(objs: Seq<ObjectView<T>>) -> bool {
    &&& forall|c: int|
        0 <= c < objs.len() && (#[trigger] objs[c]).parent is Some ==> {
            let p = objs[c].parent->Some_0.0 as int;
            0 <= p < c && objs[p].children.contains(ObjectId(c as usize))
        }
    &&& forall|p: int, k: int|
        0 <= p < objs.len() && 0 <= k < objs[p].children.len() ==> {
            let c = (#[trigger] objs[p].children[k]).0 as int;
            p < c < objs.len() && objs[c].parent == Some(ObjectId(p as usize))
        }
}

/// Adding a fresh object (no parent, no children) as a root keeps the links consistent.
pub proof fn lemma_hierarchy_add_root<T>(objs: Seq<ObjectView<T>>, o: ObjectView<T>)
    requires
        hierarchy_consistent(objs),
        o.parent is None,
        o.children.len() == 0,
    ensures
        hierarchy_consistent(objs.push(o)),
{
    let n = objs.push(o);
    assert forall|c: int| 0 <= c < n.len() && (#[trigger] n[c]).parent is Some implies {
        let p = n[c].parent->Some_0.0 as int;
        0 <= p < c && n[p].children.contains(ObjectId(c as usize))
    } by {
        assert(n[c] == objs[c]);
        let p = objs[c].parent->Some_0.0 as int;
        assert(n[p] == objs[p]);
    }
    assert forall|p: int, k: int| 0 <= p < n.len() && 0 <= k < n[p].children.len() implies {
        let c = (#[trigger] n[p].children[k]).0 as int;
        p < c < n.len() && n[c].parent == Some(ObjectId(p as usize))
    } by {
        if p < objs.len() {
            assert(n[p] == objs[p]);
            let c = objs[p].children[k].0 as int;
            assert(objs[p].children[k] == n[p].children[k]);
            assert(n[c] == objs[c]);
        }
    }
}

/// Adding an object without children as the last child of an existing object keeps the
/// links consistent; this is the change that `add_child_object` makes.
pub proof fn lemma_hierarchy_add_child<T>(objs: Seq<ObjectView<T>>, parent: ObjectId, child: ObjectView<T>)
    requires
        hierarchy_consistent(objs),
        parent.0 < objs.len(),
        objs.len() <= usize::MAX,
        child.children.len() == 0,
    ensures
        hierarchy_consistent(
            objs.push(ObjectView { parent: Some(parent), ..child }).update(
                parent.0 as int,
                ObjectView {
                    children: objs[parent.0 as int].children.push(ObjectId(objs.len() as usize)),
                    ..objs[parent.0 as int]
                },
            ),
        ),
{
    let pi = parent.0 as int;
    let cid = ObjectId(objs.len() as usize);
    let n = objs.push(ObjectView { parent: Some(parent), ..child }).update(
        pi,
        ObjectView { children: objs[pi].children.push(cid), ..objs[pi] },
    );
    assert forall|c: int| 0 <= c < n.len() && (#[trigger] n[c]).parent is Some implies {
        let p = n[c].parent->Some_0.0 as int;
        0 <= p < c && n[p].children.contains(ObjectId(c as usize))
    } by {
        if c == objs.len() {
            assert(n[pi].children[objs[pi].children.len() as int] == cid);
        } else {
            assert(n[c].parent == objs[c].parent);
            let p = objs[c].parent->Some_0.0 as int;
            if p == pi {
                let k = choose|k: int|
                    0 <= k < objs[p].children.len() && objs[p].children[k] == ObjectId(
                        c as usize,
                    );
                assert(n[p].children[k] == ObjectId(c as usize));
            } else {
                assert(n[p] == objs[p]);
            }
        }
    }
    assert forall|p: int, k: int| 0 <= p < n.len() && 0 <= k < n[p].children.len() implies {
        let c = (#[trigger] n[p].children[k]).0 as int;
        p < c < n.len() && n[c].parent == Some(ObjectId(p as usize))
    } by {
        if p == objs.len() {
            assert(n[p].children.len() == 0);
        } else if p == pi {
            if k < objs[p].children.len() {
                assert(n[p].children[k] == objs[p].children[k]);
                let c = objs[p].children[k].0 as int;
                assert(n[c].parent == objs[c].parent);
            } else {
                assert(n[p].children[k] == cid);
                assert(n[objs.len() as int].parent == Some(parent));
                assert(parent == ObjectId(p as usize));
            }
        } else {
            assert(n[p] == objs[p]);
            let c = objs[p].children[k].0 as int;
            assert(n[p].children[k] == objs[p].children[k]);
            assert(n[c].parent == objs[c].parent);
        }
    }
}

/// Changing an object's name, primitive, material, transform or visibility keeps the
/// links consistent.
pub proof fn lemma_hierarchy_update_payload<T>(objs: Seq<ObjectView<T>>, i: int, o: ObjectView<T>)
    requires
        hierarchy_consistent(objs),
        0 <= i < objs.len(),
        o.parent == objs[i].parent,
        o.children == objs[i].children,
    ensures
        hierarchy_consistent(objs.update(i, o)),
{
    let n = objs.update(i, o);
    assert forall|c: int| 0 <= c < n.len() && (#[trigger] n[c]).parent is Some implies {
        let p = n[c].parent->Some_0.0 as int;
        0 <= p < c && n[p].children.contains(ObjectId(c as usize))
    } by {
        assert(n[c].parent == objs[c].parent);
        let p = objs[c].parent->Some_0.0 as int;
        assert(n[p].children == objs[p].children);
    }
    assert forall|p: int, k: int| 0 <= p < n.len() && 0 <= k < n[p].children.len() implies {
        let c = (#[trigger] n[p].children[k]).0 as int;
        p < c < n.len() && n[c].parent == Some(ObjectId(p as usize))
    } by {
        assert(n[p].children == objs[p].children);
        let c = objs[p].children[k].0 as int;
        assert(n[c].parent == objs[c].parent);
    }
}

/// Every recorded change moves the revision on, so a scene whose revision equals the
/// one last compiled has not changed since.
pub proof fn lemma_recorded_change_moves_revision<M, V, T>(
    s: SceneView<M, V, T>,
    reason: SceneChangeReason,
)
    requires
        scene_wf(s),
        s.revision.0 < u64::MAX,
    ensures
        recorded(s, reason).revision.0 == s.revision.0 + 1,
        recorded(s, reason).history.last() == (SceneChange { revision: recorded(s, reason).revision, reason }),
        recorded(s, reason).history.subrange(0, s.history.len() as int) == s.history,
{
    assert(recorded(s, reason).history.subrange(0, s.history.len() as int) =~= s.history);
}

/// The scene in its editable form: primitive, material and object lists, each entry
/// named by its position, with a revision counter and a history of changes.
#[derive(Debug, Clone)]
pub struct Scene<M, V, T> {
    primitive_assets: Vec<PrimitiveAsset<V>>,
    material_assets: Vec<MaterialAsset<M>>,
    objects: Vec<Object<T>>,
    revision: SceneRevision,
    changes: Vec<SceneChangeReason>,
    change_history: Vec<SceneChange>,
}

impl<M, V, T> View for Scene<M, V, T> {
    type V = SceneView<M, V, T>;

    closed spec fn view(&self) -> SceneView<M, V, T> {
        SceneView {
            primitive_assets: self.primitive_assets@.map_values(|a: PrimitiveAsset<V>| a@),
            material_assets: self.material_assets@.map_values(|a: MaterialAsset<M>| a@),
            objects: self.objects@.map_values(|o: Object<T>| o@),
            revision: self.revision,
            changes: self.changes@,
            history: self.change_history@,
        }
    }
}

impl<M, V, T> Scene<M, V, T> {
    /// The scene invariant.
    pub open spec fn wf(&self) -> bool {
        scene_wf(self@)
    }

    /// Records one change: the revision advances by one, the reason joins the pending
    /// changes and the history.
    fn record_change(&mut self, reason: SceneChangeReason)
        requires
            old(self).wf(),
            old(self)@.revision.0 < u64::MAX,
        ensures
            final(self).wf(),
            final(self)@ == recorded(old(self)@, reason),
    {
        let ghost old_view = self@;
        self.revision = self.revision.next();
        self.change_history.push(SceneChange::new(self.revision, reason));
        self.changes.push(reason);
        proof {
            let h = self.change_history@;
            let c = self.changes@;
            let oh = old_view.history;
            let oc = old_view.changes;
            assert(h.subrange(h.len() - c.len(), h.len() as int) =~= oh.subrange(
                oh.len() - oc.len(),
                oh.len() as int,
            ).push(SceneChange { revision: self.revision, reason }));
            assert(reasons_of(h.subrange(h.len() - c.len(), h.len() as int)) =~= c);
            assert(self@ =~= recorded(old_view, reason));
        }
    }

    /// Forgets the pending changes; the revision and the history stay.
    pub fn clear_change(&mut self)
        requires
            old(self).wf(),
        ensures
            final(self).wf(),
            final(self)@ == (SceneView { changes: Seq::<SceneChangeReason>::empty(), ..old(self)@ }),
    {
        self.changes = Vec::new();
        proof {
            let h = self.change_history@;
            assert(reasons_of(h.subrange(h.len() as int, h.len() as int)) =~= Seq::<
                SceneChangeReason,
            >::empty());
        }
    }

    /// The revision: the number of changes recorded so far.
    pub fn revision(&self) -> (r: SceneRevision)
        ensures
            r == self@.revision,
    {
        self.revision
    }

    /// A scene holding the unit sphere as primitive 0 and the unit cube as primitive 1,
    /// with no material and no object; each of the two primitives counts as one change.
    pub fn new() -> (r: Scene<M, V, T>)
        ensures
            r.wf(),
            r@.primitive_assets == seq![
                PrimitiveAssetView::<V> {
                    name: "sphere"@,
                    id: PrimitiveId(0),
                    primitive: PrimitiveView::Sphere,
                },
                PrimitiveAssetView::<V> {
                    name: "cube"@,
                    id: PrimitiveId(1),
                    primitive: PrimitiveView::Cube,
                },
            ],
            r@.material_assets == Seq::<MaterialAssetView<M>>::empty(),
            r@.objects == Seq::<ObjectView<T>>::empty(),
            hierarchy_consistent(r@.objects),
            r@.revision == SceneRevision(2),
            r@.changes == seq![
                SceneChangeReason::PrimitiveAdded { primitive_id: PrimitiveId(0) },
                SceneChangeReason::PrimitiveAdded { primitive_id: PrimitiveId(1) },
            ],
            r@.history == seq![
                SceneChange {
                    revision: SceneRevision(1),
                    reason: SceneChangeReason::PrimitiveAdded { primitive_id: PrimitiveId(0) },
                },
                SceneChange {
                    revision: SceneRevision(2),
                    reason: SceneChangeReason::PrimitiveAdded { primitive_id: PrimitiveId(1) },
                },
            ],
    {
        let mut scene = Scene {
            primitive_assets: Vec::new(),
            material_assets: Vec::new(),
            objects: Vec::new(),
            revision: SceneRevision(0),
            changes: Vec::new(),
            change_history: Vec::new(),
        };
        proof {
            assert(scene@.history.subrange(0, 0) =~= Seq::<SceneChange>::empty());
            assert(reasons_of(Seq::<SceneChange>::empty()) =~= Seq::<SceneChangeReason>::empty());
        }
        scene.primitive_assets.push(PrimitiveAsset::new("sphere", PrimitiveId(0), Primitive::Sphere));
        scene.primitive_assets.push(PrimitiveAsset::new("cube", PrimitiveId(1), Primitive::Cube));
        proof {
            assert(scene@.primitive_assets[0].id == PrimitiveId(0));
            assert(scene@.primitive_assets[1].id == PrimitiveId(1));
        }
        scene.record_change(SceneChangeReason::PrimitiveAdded { primitive_id: PrimitiveId(0) });
        scene.record_change(SceneChangeReason::PrimitiveAdded { primitive_id: PrimitiveId(1) });
        proof {
            assert(scene@.primitive_assets =~= seq![
                PrimitiveAssetView::<V> {
                    name: "sphere"@,
                    id: PrimitiveId(0),
                    primitive: PrimitiveView::Sphere,
                },
                PrimitiveAssetView::<V> {
                    name: "cube"@,
                    id: PrimitiveId(1),
                    primitive: PrimitiveView::Cube,
                },
            ]);
            assert(scene@.changes =~= seq![
                SceneChangeReason::PrimitiveAdded { primitive_id: PrimitiveId(0) },
                SceneChangeReason::PrimitiveAdded { primitive_id: PrimitiveId(1) },
            ]);
            assert(scene@.history =~= seq![
                SceneChange {
                    revision: SceneRevision(1),
                    reason: SceneChangeReason::PrimitiveAdded { primitive_id: PrimitiveId(0) },
                },
                SceneChange {
                    revision: SceneRevision(2),
                    reason: SceneChangeReason::PrimitiveAdded { primitive_id: PrimitiveId(1) },
                },
            ]);
        }
        scene
    }

    /// The material assets, in the order of their identifiers.
    pub fn material_assets(&self) -> (r: &[MaterialAsset<M>])
        ensures
            r@.map_values(|a: MaterialAsset<M>| a@) == self@.material_assets,
    {
        self.material_assets.as_slice()
    }

    /// The primitive assets, in the order of their identifiers.
    pub fn primitive_assets(&self) -> (r: &[PrimitiveAsset<V>])
        ensures
            r@.map_values(|a: PrimitiveAsset<V>| a@) == self@.primitive_assets,
    {
        self.primitive_assets.as_slice()
    }

    /// The objects, in the order of their identifiers.
    pub fn objects(&self) -> (r: &[Object<T>])
        ensures
            r@.map_values(|o: Object<T>| o@) == self@.objects,
    {
        self.objects.as_slice()
    }

    /// Adds a material; its identifier is the number of materials before it.
    pub fn add_material(&mut self, name: &str, material: M) -> (r: MaterialId)
        requires
            old(self).wf(),
            old(self)@.revision.0 < u64::MAX,
        ensures
            final(self).wf(),
            r == MaterialId(old(self)@.material_assets.len() as usize),
            final(self)@ == recorded(
                SceneView {
                    material_assets: old(self)@.material_assets.push(
                        MaterialAssetView { name: name@, material },
                    ),
                    ..old(self)@
                },
                SceneChangeReason::MaterialAdded { material_id: r },
            ),
    {
        let ghost old_view = self@;
        let material_id = MaterialId(self.material_assets.len());
        self.material_assets.push(MaterialAsset::new(name, material));
        proof {
            assert(self.material_assets@.map_values(|a: MaterialAsset<M>| a@)
                =~= old_view.material_assets.push(MaterialAssetView { name: name@, material }));
        }
        self.record_change(SceneChangeReason::MaterialAdded { material_id });
        material_id
    }

    /// Replaces the material of an existing material asset; its name stays.
    pub fn change_material(&mut self, material_id: MaterialId, new_material: M) -> (r: Result<
        (),
        SceneError,
    >)
        requires
            old(self).wf(),
            old(self)@.revision.0 < u64::MAX,
        ensures
            final(self).wf(),
            material_id.0 < old(self)@.material_assets.len() ==> r is Ok && final(self)@
                == recorded(
                SceneView {
                    material_assets: old(self)@.material_assets.update(
                        material_id.0 as int,
                        MaterialAssetView {
                            name: old(self)@.material_assets[material_id.0 as int].name,
                            material: new_material,
                        },
                    ),
                    ..old(self)@
                },
                SceneChangeReason::MaterialChanged { material_id },
            ),
            material_id.0 >= old(self)@.material_assets.len() ==> r == Err::<(), SceneError>(
                SceneError::Material(MaterialError::UnknownMaterial { material_id }),
            ) && final(self)@ == old(self)@,
    {
        if material_id.0 >= self.material_assets.len() {
            return Err(SceneError::Material(MaterialError::UnknownMaterial { material_id }));
        }
        let ghost old_view = self@;
        let asset = MaterialAsset::new(self.material_assets[material_id.0].name(), new_material);
        self.material_assets.set(material_id.0, asset);
        proof {
            assert(self.material_assets@.map_values(|a: MaterialAsset<M>| a@)
                =~= old_view.material_assets.update(
                material_id.0 as int,
                MaterialAssetView {
                    name: old_view.material_assets[material_id.0 as int].name,
                    material: new_material,
                },
            ));
        }
        self.record_change(SceneChangeReason::MaterialChanged { material_id });
        Ok(())
    }

    /// Adds a mesh as a new primitive; its identifier is the number of primitives before it.
    pub fn add_primitive_mesh(&mut self, name: &str, mesh: Mesh<V>) -> (r: PrimitiveId)
        requires
            old(self).wf(),
            old(self)@.revision.0 < u64::MAX,
        ensures
            final(self).wf(),
            r == PrimitiveId(old(self)@.primitive_assets.len() as usize),
            final(self)@ == recorded(
                SceneView {
                    primitive_assets: old(self)@.primitive_assets.push(
                        PrimitiveAssetView {
                            name: name@,
                            id: r,
                            primitive: PrimitiveView::Mesh(mesh@),
                        },
                    ),
                    ..old(self)@
                },
                SceneChangeReason::PrimitiveAdded { primitive_id: r },
            ),
    {
        let ghost old_view = self@;
        let ghost mesh_view = mesh@;
        let primitive_id = PrimitiveId(self.primitive_assets.len());
        self.primitive_assets.push(PrimitiveAsset::new(name, primitive_id, Primitive::Mesh(mesh)));
        proof {
            assert(self.primitive_assets@.map_values(|a: PrimitiveAsset<V>| a@)
                =~= old_view.primitive_assets.push(
                PrimitiveAssetView {
                    name: name@,
                    id: primitive_id,
                    primitive: PrimitiveView::Mesh(mesh_view),
                },
            ));
        }
        self.record_change(SceneChangeReason::PrimitiveAdded { primitive_id });
        primitive_id
    }

    /// Replaces the whole mesh of a mesh primitive; name and identifier stay.
    pub fn change_primitive_mesh_topology(&mut self, primitive_id: PrimitiveId, new_mesh: Mesh<V>) -> (r:
        Result<(), SceneError>)
        requires
            old(self).wf(),
            old(self)@.revision.0 < u64::MAX,
        ensures
            final(self).wf(),
            primitive_id.0 >= old(self)@.primitive_assets.len() ==> r == Err::<(), SceneError>(
                SceneError::Primitive(PrimitiveError::UnknownPrimitive { primitive_id }),
            ) && final(self)@ == old(self)@,
            primitive_id.0 < old(self)@.primitive_assets.len() && !(old(self)@.primitive_assets[primitive_id.0 as int].primitive is Mesh) ==> r == Err::<
                (),
                SceneError,
            >(SceneError::Primitive(PrimitiveError::NotAMesh { primitive_id })) && final(self)@
                == old(self)@,
            primitive_id.0 < old(self)@.primitive_assets.len() && old(self)@.primitive_assets[primitive_id.0 as int].primitive is Mesh ==> r is Ok && final(self)@ == recorded(
                SceneView {
                    primitive_assets: old(self)@.primitive_assets.update(
                        primitive_id.0 as int,
                        PrimitiveAssetView {
                            primitive: PrimitiveView::Mesh(new_mesh@),
                            ..old(self)@.primitive_assets[primitive_id.0 as int]
                        },
                    ),
                    ..old(self)@
                },
                SceneChangeReason::MeshTopologyChanged { primitive_id },
            ),
    {
        if primitive_id.0 >= self.primitive_assets.len() {
            return Err(SceneError::Primitive(PrimitiveError::UnknownPrimitive { primitive_id }));
        }
        match self.primitive_assets[primitive_id.0].primitive() {
            Primitive::Mesh(_) => {},
            _ => {
                return Err(SceneError::Primitive(PrimitiveError::NotAMesh { primitive_id }));
            },
        }
        let ghost old_view = self@;
        let ghost mesh_view = new_mesh@;
        self.primitive_assets[primitive_id.0].replace_primitive(Primitive::Mesh(new_mesh));
        proof {
            assert(self.primitive_assets@.map_values(|a: PrimitiveAsset<V>| a@)
                =~= old_view.primitive_assets.update(
                primitive_id.0 as int,
                PrimitiveAssetView {
                    primitive: PrimitiveView::Mesh(mesh_view),
                    ..old_view.primitive_assets[primitive_id.0 as int]
                },
            ));
        }
        self.record_change(SceneChangeReason::MeshTopologyChanged { primitive_id });
        Ok(())
    }

    /// Adds an object as a root of the hierarchy; its identifier is the number of objects
    /// before it.
    pub fn add_object(&mut self, object: Object<T>) -> (r: ObjectId)
        requires
            old(self).wf(),
            old(self)@.revision.0 < u64::MAX,
        ensures
            final(self).wf(),
            r == ObjectId(old(self)@.objects.len() as usize),
            final(self)@ == recorded(
                SceneView { objects: old(self)@.objects.push(object@), ..old(self)@ },
                SceneChangeReason::ObjectAdded { object_id: r },
            ),
            hierarchy_consistent(old(self)@.objects) && object@.parent is None
                && object@.children.len() == 0 ==> hierarchy_consistent(final(self)@.objects),
    {
        let ghost old_view = self@;
        let ghost object_view = object@;
        let object_id = ObjectId(self.objects.len());
        self.objects.push(object);
        proof {
            assert(self.objects@.map_values(|o: Object<T>| o@) =~= old_view.objects.push(
                object_view,
            ));
        }
        self.record_change(SceneChangeReason::ObjectAdded { object_id });
        proof {
            if hierarchy_consistent(old_view.objects) && object_view.parent is None
                && object_view.children.len() == 0 {
                lemma_hierarchy_add_root(old_view.objects, object_view);
            }
        }
        object_id
    }

    /// Adds an object as the last child of an existing object. The parent's hierarchy
    /// change is recorded first, then the addition of the child.
    pub fn add_child_object(&mut self, parent_id: ObjectId, child: Object<T>) -> (r: Result<
        ObjectId,
        SceneError,
    >)
        requires
            old(self).wf(),
            old(self)@.revision.0 < u64::MAX - 1,
        ensures
            final(self).wf(),
            parent_id.0 >= old(self)@.objects.len() ==> r == Err::<ObjectId, SceneError>(
                SceneError::Object(ObjectError::UnknownObject { object_id: parent_id }),
            ) && final(self)@ == old(self)@,
            parent_id.0 < old(self)@.objects.len() ==> r == Ok::<ObjectId, SceneError>(
                ObjectId(old(self)@.objects.len() as usize),
            ) && final(self)@ == recorded(
                recorded(
                    SceneView {
                        objects: old(self)@.objects.push(
                            ObjectView { parent: Some(parent_id), ..child@ },
                        ).update(
                            parent_id.0 as int,
                            ObjectView {
                                children: old(self)@.objects[parent_id.0 as int].children.push(
                                    ObjectId(old(self)@.objects.len() as usize),
                                ),
                                ..old(self)@.objects[parent_id.0 as int]
                            },
                        ),
                        ..old(self)@
                    },
                    SceneChangeReason::HierarchyChanged { object_id: parent_id },
                ),
                SceneChangeReason::ObjectAdded {
                    object_id: ObjectId(old(self)@.objects.len() as usize),
                },
            ),
            hierarchy_consistent(old(self)@.objects) && child@.children.len() == 0
                ==> hierarchy_consistent(final(self)@.objects),
    {
        if parent_id.0 >= self.objects.len() {
            return Err(SceneError::Object(ObjectError::UnknownObject { object_id: parent_id }));
        }
        let ghost old_view = self@;
        let ghost given_child = child@;
        let mut child = child;
        child.set_parent(parent_id);
        let ghost child_view = child@;
        let child_id = ObjectId(self.objects.len());
        self.objects.push(child);
        self.objects[parent_id.0].push_child(child_id);
        proof {
            assert(self.objects@.map_values(|o: Object<T>| o@) =~= old_view.objects.push(
                child_view,
            ).update(
                parent_id.0 as int,
                ObjectView {
                    children: old_view.objects[parent_id.0 as int].children.push(child_id),
                    ..old_view.objects[parent_id.0 as int]
                },
            ));
        }
        self.record_change(SceneChangeReason::HierarchyChanged { object_id: parent_id });
        self.record_change(SceneChangeReason::ObjectAdded { object_id: child_id });
        proof {
            if hierarchy_consistent(old_view.objects) && given_child.children.len() == 0 {
                lemma_hierarchy_add_child(old_view.objects, parent_id, given_child);
            }
        }
        Ok(child_id)
    }

    /// Replaces the transform of an existing object.
    pub fn set_transform(&mut self, object_id: ObjectId, transform: T) -> (r: Result<
        (),
        SceneError,
    >)
        requires
            old(self).wf(),
            old(self)@.revision.0 < u64::MAX,
        ensures
            final(self).wf(),
            object_id.0 < old(self)@.objects.len() ==> r is Ok && final(self)@ == recorded(
                SceneView {
                    objects: old(self)@.objects.update(
                        object_id.0 as int,
                        ObjectView { transform, ..old(self)@.objects[object_id.0 as int] },
                    ),
                    ..old(self)@
                },
                SceneChangeReason::TransformChanged { object_id },
            ),
            object_id.0 >= old(self)@.objects.len() ==> r == Err::<(), SceneError>(
                SceneError::Object(ObjectError::UnknownObject { object_id }),
            ) && final(self)@ == old(self)@,
            hierarchy_consistent(old(self)@.objects) ==> hierarchy_consistent(
                final(self)@.objects,
            ),
    {
        if object_id.0 >= self.objects.len() {
            return Err(SceneError::Object(ObjectError::UnknownObject { object_id }));
        }
        let ghost old_view = self@;
        self.objects[object_id.0].set_transform(transform);
        proof {
            assert(self.objects@.map_values(|o: Object<T>| o@) =~= old_view.objects.update(
                object_id.0 as int,
                ObjectView { transform, ..old_view.objects[object_id.0 as int] },
            ));
        }
        self.record_change(SceneChangeReason::TransformChanged { object_id });
        proof {
            if hierarchy_consistent(old_view.objects) {
                lemma_hierarchy_update_payload(
                    old_view.objects,
                    object_id.0 as int,
                    ObjectView { transform, ..old_view.objects[object_id.0 as int] },
                );
            }
        }
        Ok(())
    }

    /// Shows or hides an object.
    pub fn change_visibility(&mut self, object_id: ObjectId, is_visible: bool) -> (r: Result<
        (),
        SceneError,
    >)
        requires
            old(self).wf(),
            old(self)@.revision.0 < u64::MAX,
        ensures
            final(self).wf(),
            object_id.0 < old(self)@.objects.len() ==> r is Ok && final(self)@ == recorded(
                SceneView {
                    objects: old(self)@.objects.update(
                        object_id.0 as int,
                        ObjectView { is_visible, ..old(self)@.objects[object_id.0 as int] },
                    ),
                    ..old(self)@
                },
                SceneChangeReason::VisibilityChanged { object_id },
            ),
            object_id.0 >= old(self)@.objects.len() ==> r == Err::<(), SceneError>(
                SceneError::Object(ObjectError::UnknownObject { object_id }),
            ) && final(self)@ == old(self)@,
            hierarchy_consistent(old(self)@.objects) ==> hierarchy_consistent(
                final(self)@.objects,
            ),
    {
        if object_id.0 >= self.objects.len() {
            return Err(SceneError::Object(ObjectError::UnknownObject { object_id }));
        }
        let ghost old_view = self@;
        self.objects[object_id.0].set_visible(is_visible);
        proof {
            assert(self.objects@.map_values(|o: Object<T>| o@) =~= old_view.objects.update(
                object_id.0 as int,
                ObjectView { is_visible, ..old_view.objects[object_id.0 as int] },
            ));
        }
        self.record_change(SceneChangeReason::VisibilityChanged { object_id });
        proof {
            if hierarchy_consistent(old_view.objects) {
                lemma_hierarchy_update_payload(
                    old_view.objects,
                    object_id.0 as int,
                    ObjectView { is_visible, ..old_view.objects[object_id.0 as int] },
                );
            }
        }
        Ok(())
    }
}

impl<M, V: Copy, T> Scene<M, V, T> {
    /// Overwrites vertices of a mesh primitive, from position `start` on, with
    /// `new_vertices`. A range that does not lie inside the mesh is refused with the
    /// mesh's vertex count in `count` and the number of new vertices in `vertex_count`.
    /// The recorded vertex range holds both ends cut to 32 bits.
    pub fn change_primitive_mesh_geometry(
        &mut self,
        primitive_id: PrimitiveId,
        start: usize,
        new_vertices: &[V],
    ) -> (r: Result<(), SceneError>)
        requires
            old(self).wf(),
            old(self)@.revision.0 < u64::MAX,
            start + new_vertices@.len() <= usize::MAX,
        ensures
            final(self).wf(),
            primitive_id.0 >= old(self)@.primitive_assets.len() ==> r == Err::<(), SceneError>(
                SceneError::Primitive(PrimitiveError::UnknownPrimitive { primitive_id }),
            ) && final(self)@ == old(self)@,
            primitive_id.0 < old(self)@.primitive_assets.len() && !(old(
                self)@.primitive_assets[primitive_id.0 as int].primitive is Mesh) ==> r == Err::<
                (),
                SceneError,
            >(SceneError::Primitive(PrimitiveError::NotAMesh { primitive_id })) && final(self)@
                == old(self)@,
            primitive_id.0 < old(self)@.primitive_assets.len() && old(
                self)@.primitive_assets[primitive_id.0 as int].primitive is Mesh ==> ({
                let asset = old(self)@.primitive_assets[primitive_id.0 as int];
                let mesh = asset.primitive->Mesh_0;
                let end = start + new_vertices@.len();
                &&& end > mesh.vertices.len() ==> r == Err::<(), SceneError>(
                    SceneError::Primitive(
                        PrimitiveError::VertexRangeOutOfBounds {
                            primitive_id,
                            start,
                            count: mesh.vertices.len() as usize,
                            vertex_count: new_vertices@.len() as usize,
                        },
                    ),
                ) && final(self)@ == old(self)@
                &&& end <= mesh.vertices.len() ==> r is Ok && final(self)@ == recorded(
                    SceneView {
                        primitive_assets: old(self)@.primitive_assets.update(
                            primitive_id.0 as int,
                            PrimitiveAssetView {
                                primitive: PrimitiveView::Mesh(
                                    MeshView {
                                        vertices: overwritten(
                                            mesh.vertices,
                                            start as int,
                                            new_vertices@,
                                        ),
                                        indices: mesh.indices,
                                    },
                                ),
                                ..asset
                            },
                        ),
                        ..old(self)@
                    },
                    SceneChangeReason::MeshGeometryChanged {
                        primitive_id,
                        vertex_range: VertexRange { start: start as u32, end: end as u32 },
                    },
                )
            }),
    {
        if primitive_id.0 >= self.primitive_assets.len() {
            return Err(SceneError::Primitive(PrimitiveError::UnknownPrimitive { primitive_id }));
        }
        let vertex_len = match self.primitive_assets[primitive_id.0].primitive() {
            Primitive::Mesh(mesh) => mesh.vertices().len(),
            _ => {
                return Err(SceneError::Primitive(PrimitiveError::NotAMesh { primitive_id }));
            },
        };
        let end = start + new_vertices.len();
        if end > vertex_len {
            return Err(
                SceneError::Primitive(
                    PrimitiveError::VertexRangeOutOfBounds {
                        primitive_id,
                        start,
                        count: vertex_len,
                        vertex_count: new_vertices.len(),
                    },
                ),
            );
        }
        let ghost old_view = self@;
        let ghost asset = old_view.primitive_assets[primitive_id.0 as int];
        let ghost mesh = asset.primitive->Mesh_0;
        self.primitive_assets[primitive_id.0].write_mesh_vertices(start, new_vertices);
        proof {
            assert(self.primitive_assets@.map_values(|a: PrimitiveAsset<V>| a@)
                =~= old_view.primitive_assets.update(
                primitive_id.0 as int,
                PrimitiveAssetView {
                    primitive: PrimitiveView::Mesh(
                        MeshView {
                            vertices: overwritten(mesh.vertices, start as int, new_vertices@),
                            indices: mesh.indices,
                        },
                    ),
                    ..asset
                },
            ));
        }
        self.record_change(
            SceneChangeReason::MeshGeometryChanged {
                primitive_id,
                vertex_range: VertexRange { start: start as u32, end: end as u32 },
            },
        );
        Ok(())
    }
}

} // verus!
