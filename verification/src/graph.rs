use vstd::prelude::*;

use crate::asset::{MaterialAsset, MaterialAssetView, Object, ObjectView, PrimitiveAsset, PrimitiveAssetView};
use crate::ids::ObjectId;
use crate::scene::{Scene, SceneView};
use crate::text::{append_decimal, decimal};

verus! {

/// The opening of the dependency graph: the graph kind and the three node styles.
pub open spec fn graph_header() -> Seq<char> {
    "graph TD\n"@ + "    classDef objClass fill:#e1f5fe,stroke:#0277bd,stroke-width:2px,color:#000;\n"@
        + "    classDef primClass fill:#fff3e0,stroke:#ef6c00,stroke-width:2px,color:#000;\n"@
        + "    classDef matClass fill:#e8f5e9,stroke:#2e7d32,stroke-width:2px,color:#000;\n\n"@
}

/// The node line of object `i`.
pub open spec fn object_node_line(i: nat, name: Seq<char>) -> Seq<char> {
    "    obj"@ + decimal(i) + "[(\"Object: "@ + name + "\")]:::objClass\n"@
}

/// The node line of the primitive with identifier `id`.
pub open spec fn primitive_node_line(id: nat, name: Seq<char>) -> Seq<char> {
    "    prim"@ + decimal(id) + "[\"Primitive: "@ + name + "\"]:::primClass\n"@
}

/// The node line of material `i`.
pub open spec fn material_node_line(i: nat, name: Seq<char>) -> Seq<char> {
    "    mat"@ + decimal(i) + "([\"Material: "@ + name + "\"]):::matClass\n"@
}

/// The edge line from object `i` to its child `c`.
pub open spec fn child_edge_line(i: nat, c: nat) -> Seq<char> {
    "    obj"@ + decimal(i) + " --> obj"@ + decimal(c) + "\n"@
}

/// The edge line from object `i` to the primitive it draws.
pub open spec fn primitive_edge_line(i: nat, p: nat) -> Seq<char> {
    "    obj"@ + decimal(i) + " -.-> prim"@ + decimal(p) + "\n"@
}

/// The edge line from object `i` to its material.
pub open spec fn material_edge_line(i: nat, m: nat) -> Seq<char> {
    "    obj"@ + decimal(i) + " -.-> mat"@ + decimal(m) + "\n"@
}

/// The node lines of the first `n` objects.
pub open spec fn object_nodes<T>(objs: Seq<ObjectView<T>>, n: int) -> Seq<char>
    decreases n,
{
    if n <= 0 {
        Seq::<char>::empty()
    } else {
        object_nodes(objs, n - 1) + object_node_line((n - 1) as nat, objs[n - 1].name)
    }
}

/// The node lines of the first `n` primitives.
pub open spec fn primitive_nodes<V>(prims: Seq<PrimitiveAssetView<V>>, n: int) -> Seq<char>
    decreases n,
{
    if n <= 0 {
        Seq::<char>::empty()
    } else {
        primitive_nodes(prims, n - 1) + primitive_node_line(
            prims[n - 1].id.0 as nat,
            prims[n - 1].name,
        )
    }
}

/// The node lines of the first `n` materials.
pub open spec fn material_nodes<M>(mats: Seq<MaterialAssetView<M>>, n: int) -> Seq<char>
    decreases n,
{
    if n <= 0 {
        Seq::<char>::empty()
    } else {
        material_nodes(mats, n - 1) + material_node_line((n - 1) as nat, mats[n - 1].name)
    }
}

/// The edge lines from object `i` to its first `n` children.
pub open spec fn child_edges(i: nat, children: Seq<ObjectId>, n: int) -> Seq<char>
    decreases n,
{
    if n <= 0 {
        Seq::<char>::empty()
    } else {
        child_edges(i, children, n - 1) + child_edge_line(i, children[n - 1].0 as nat)
    }
}

/// The edge lines of object `i`: to each child, then to its primitive and its material.
pub open spec fn object_edges<T>(i: nat, o: ObjectView<T>) -> Seq<char> {
    child_edges(i, o.children, o.children.len() as int) + primitive_edge_line(
        i,
        o.primitive_id.0 as nat,
    ) + material_edge_line(i, o.material_id.0 as nat)
}

/// The edge lines of the first `n` objects.
pub open spec fn all_edges<T>(objs: Seq<ObjectView<T>>, n: int) -> Seq<char>
    decreases n,
{
    if n <= 0 {
        Seq::<char>::empty()
    } else {
        all_edges(objs, n - 1) + object_edges((n - 1) as nat, objs[n - 1])
    }
}

/// The dependency graph of a scene in Mermaid syntax: object, primitive and material
/// nodes, then for each object its child, primitive and material edges.
pub open spec fn dependency_graph<M, V, T>(s: SceneView<M, V, T>) -> Seq<char> {
    graph_header() + object_nodes(s.objects, s.objects.len() as int) + "\n"@ + primitive_nodes(
        s.primitive_assets,
        s.primitive_assets.len() as int,
    ) + "\n"@ + material_nodes(s.material_assets, s.material_assets.len() as int) + "\n"@
        + all_edges(s.objects, s.objects.len() as int)
}

/// Whether `line` stands somewhere in `text` as a run of consecutive characters.
pub open spec fn occurs_in(line: Seq<char>, text: Seq<char>) -> bool {
    exists|p: int|
        0 <= p && p + line.len() <= text.len() && #[trigger] text.subrange(p, p + line.len())
            == line
}

proof fn lemma_child_edges_are_lines(i: nat, children: Seq<ObjectId>, n: int)
    requires
        0 <= n <= children.len(),
    ensures
        child_edges(i, children, n) == Seq::new(
            n as nat,
            |k: int| child_edge_line(i, children[k].0 as nat),
        ).flatten(),
    decreases n,
{
    let lines = Seq::new(n as nat, |k: int| child_edge_line(i, children[k].0 as nat));
    if n == 0 {
        assert(lines =~= Seq::<Seq<char>>::empty());
    } else {
        lemma_child_edges_are_lines(i, children, n - 1);
        let prev = Seq::new((n - 1) as nat, |k: int| child_edge_line(i, children[k].0 as nat));
        assert(lines =~= prev.push(child_edge_line(i, children[n - 1].0 as nat)));
        prev.lemma_flatten_push(child_edge_line(i, children[n - 1].0 as nat));
    }
}

/// The edges of an object are one child edge line per entry of its children list, in
/// the order of that list, then the edge to its primitive and the edge to its material.
pub proof fn lemma_object_edges_one_line_per_child<T>(i: nat, o: ObjectView<T>)
    ensures
        object_edges(i, o) == Seq::new(
            o.children.len(),
            |k: int| child_edge_line(i, o.children[k].0 as nat),
        ).flatten() + primitive_edge_line(i, o.primitive_id.0 as nat) + material_edge_line(
            i,
            o.material_id.0 as nat,
        ),
{
    lemma_child_edges_are_lines(i, o.children, o.children.len() as int);
}

proof fn lemma_occurs_in_flatten(lines: Seq<Seq<char>>, k: int)
    requires
        0 <= k < lines.len(),
    ensures
        occurs_in(lines[k], lines.flatten()),
{
    let before = lines.subrange(0, k);
    let after = lines.subrange(k + 1, lines.len() as int);
    assert(lines =~= before + seq![lines[k]] + after);
    vstd::seq_lib::lemma_flatten_concat(before + seq![lines[k]], after);
    vstd::seq_lib::lemma_flatten_concat(before, seq![lines[k]]);
    seq![lines[k]].lemma_flatten_one_element();
    let flat = lines.flatten();
    let p = before.flatten().len() as int;
    assert(flat == before.flatten() + lines[k] + after.flatten());
    assert(flat.subrange(p, p + lines[k].len()) =~= lines[k]);
}

proof fn lemma_occurs_in_concat(line: Seq<char>, pre: Seq<char>, mid: Seq<char>, post: Seq<char>)
    requires
        occurs_in(line, mid),
    ensures
        occurs_in(line, pre + mid + post),
{
    let p = choose|p: int|
        0 <= p && p + line.len() <= mid.len() && #[trigger] mid.subrange(p, p + line.len())
            == line;
    let t = pre + mid + post;
    let q = p + pre.len();
    assert(t.subrange(q, q + line.len()) =~= mid.subrange(p, p + line.len()));
}

proof fn lemma_occurs_in_later_edges<T>(line: Seq<char>, objs: Seq<ObjectView<T>>, j: int, n: int)
    requires
        0 <= j <= n,
        occurs_in(line, all_edges(objs, j)),
    ensures
        occurs_in(line, all_edges(objs, n)),
    decreases n,
{
    if n > j {
        lemma_occurs_in_later_edges(line, objs, j, n - 1);
        lemma_occurs_in_concat(
            line,
            Seq::<char>::empty(),
            all_edges(objs, n - 1),
            object_edges((n - 1) as nat, objs[n - 1]),
        );
        assert(Seq::<char>::empty() + all_edges(objs, n - 1) + object_edges(
            (n - 1) as nat,
            objs[n - 1],
        ) =~= all_edges(objs, n));
    }
}

/// Every child of every object has its edge in the graph: for object `i` and each
/// position `k` of its children list, the line `"    obj<i> --> obj<child>"` occurs.
pub proof fn lemma_graph_has_every_child_edge<M, V, T>(s: SceneView<M, V, T>, i: int, k: int)
    requires
        0 <= i < s.objects.len(),
        0 <= k < s.objects[i].children.len(),
    ensures
        occurs_in(
            child_edge_line(i as nat, s.objects[i].children[k].0 as nat),
            dependency_graph(s),
        ),
{
    let o = s.objects[i];
    let line = child_edge_line(i as nat, o.children[k].0 as nat);
    let lines = Seq::new(o.children.len(), |j: int| child_edge_line(i as nat, o.children[j].0 as nat));
    lemma_object_edges_one_line_per_child(i as nat, o);
    lemma_occurs_in_flatten(lines, k);
    assert(lines[k] == line);
    let tail = primitive_edge_line(i as nat, o.primitive_id.0 as nat) + material_edge_line(
        i as nat,
        o.material_id.0 as nat,
    );
    lemma_occurs_in_concat(line, Seq::<char>::empty(), lines.flatten(), tail);
    assert(Seq::<char>::empty() + lines.flatten() + tail =~= object_edges(i as nat, o));
    lemma_occurs_in_concat(line, all_edges(s.objects, i), object_edges(i as nat, o), Seq::<char>::empty());
    assert(all_edges(s.objects, i) + object_edges(i as nat, o) + Seq::<char>::empty() =~= all_edges(
        s.objects,
        i + 1,
    ));
    lemma_occurs_in_later_edges(line, s.objects, i + 1, s.objects.len() as int);
    let pre = graph_header() + object_nodes(s.objects, s.objects.len() as int) + "\n"@
        + primitive_nodes(s.primitive_assets, s.primitive_assets.len() as int) + "\n"@
        + material_nodes(s.material_assets, s.material_assets.len() as int) + "\n"@;
    lemma_occurs_in_concat(
        line,
        pre,
        all_edges(s.objects, s.objects.len() as int),
        Seq::<char>::empty(),
    );
    assert(pre + all_edges(s.objects, s.objects.len() as int) + Seq::<char>::empty()
        =~= dependency_graph(s));
}

/// Appends `"    <prefix><i>"`, the start of every node and edge line.
fn push_line_start(g: &mut String, prefix: &str, i: usize)
    ensures
        final(g)@ == old(g)@ + (prefix@ + decimal(i as nat)),
{
    g.append(prefix);
    append_decimal(g, i);
    proof {
        assert(final(g)@ =~= old(g)@ + (prefix@ + decimal(i as nat)));
    }
}

fn push_object_node(g: &mut String, i: usize, name: &str)
    ensures
        final(g)@ == old(g)@ + object_node_line(i as nat, name@),
{
    let ghost g0 = g@;
    push_line_start(g, "    obj", i);
    g.append("[(\"Object: ");
    g.append(name);
    g.append("\")]:::objClass\n");
    proof {
        assert(g@ =~= g0 + object_node_line(i as nat, name@));
    }
}

fn push_primitive_node(g: &mut String, id: usize, name: &str)
    ensures
        final(g)@ == old(g)@ + primitive_node_line(id as nat, name@),
{
    let ghost g0 = g@;
    push_line_start(g, "    prim", id);
    g.append("[\"Primitive: ");
    g.append(name);
    g.append("\"]:::primClass\n");
    proof {
        assert(g@ =~= g0 + primitive_node_line(id as nat, name@));
    }
}

fn push_material_node(g: &mut String, i: usize, name: &str)
    ensures
        final(g)@ == old(g)@ + material_node_line(i as nat, name@),
{
    let ghost g0 = g@;
    push_line_start(g, "    mat", i);
    g.append("([\"Material: ");
    g.append(name);
    g.append("\"]):::matClass\n");
    proof {
        assert(g@ =~= g0 + material_node_line(i as nat, name@));
    }
}

/// Appends `"    obj<i><arrow><j>\n"`.
fn push_edge(g: &mut String, i: usize, arrow: &str, j: usize)
    ensures
        final(g)@ == old(g)@ + ("    obj"@ + decimal(i as nat) + arrow@ + decimal(j as nat)
            + "\n"@),
{
    let ghost g0 = g@;
    push_line_start(g, "    obj", i);
    g.append(arrow);
    append_decimal(g, j);
    g.append("\n");
    proof {
        assert(g@ =~= g0 + ("    obj"@ + decimal(i as nat) + arrow@ + decimal(j as nat)
            + "\n"@));
    }
}

fn push_object_edges<T>(g: &mut String, i: usize, object: &Object<T>)
    ensures
        final(g)@ == old(g)@ + object_edges(i as nat, object@),
{
    let ghost g0 = g@;
    let children = object.children();
    let mut k: usize = 0;
    while k < children.len()
        invariant
            k <= children@.len(),
            children@ == object@.children,
            g@ == g0 + child_edges(i as nat, children@, k as int),
        decreases children@.len() - k,
    {
        push_edge(g, i, " --> obj", children[k].0);
        k = k + 1;
        proof {
            assert(g@ =~= g0 + child_edges(i as nat, children@, k as int));
        }
    }
    push_edge(g, i, " -.-> prim", object.primitive().0);
    push_edge(g, i, " -.-> mat", object.material_id().0);
    proof {
        assert(g@ =~= g0 + object_edges(i as nat, object@));
    }
}

impl<M, V, T> Scene<M, V, T> {
    /// The dependency graph of the scene's objects, primitives and materials, in
    /// Mermaid syntax.
    pub fn make_mermaid_graph_of_instance_dependency(&self) -> (r: String)
        ensures
            r@ == dependency_graph(self@),
            forall|i: int, k: int|
                0 <= i < self@.objects.len() && 0 <= k < self@.objects[i].children.len()
                    ==> occurs_in(
                    #[trigger] child_edge_line(i as nat, self@.objects[i].children[k].0 as nat),
                    r@,
                ),
    {
        let ghost sv = self@;
        proof {
            assert forall|i: int, k: int|
                0 <= i < sv.objects.len() && 0 <= k < sv.objects[i].children.len() implies occurs_in(
                #[trigger] child_edge_line(i as nat, sv.objects[i].children[k].0 as nat),
                dependency_graph(sv),
            ) by {
                lemma_graph_has_every_child_edge(sv, i, k);
            }
        }
        let mut graph = String::from_str("graph TD\n");
        graph.append(
            "    classDef objClass fill:#e1f5fe,stroke:#0277bd,stroke-width:2px,color:#000;\n",
        );
        graph.append(
            "    classDef primClass fill:#fff3e0,stroke:#ef6c00,stroke-width:2px,color:#000;\n",
        );
        graph.append(
            "    classDef matClass fill:#e8f5e9,stroke:#2e7d32,stroke-width:2px,color:#000;\n\n",
        );
        let ghost head = graph@;

        let objects = self.objects();
        let mut i: usize = 0;
        while i < objects.len()
            invariant
                i <= objects@.len(),
                objects@.map_values(|o: Object<T>| o@) == sv.objects,
                graph@ == head + object_nodes(sv.objects, i as int),
            decreases objects@.len() - i,
        {
            proof {
                assert(objects@.map_values(|o: Object<T>| o@)[i as int] == objects@[i as int]@);
            }
            push_object_node(&mut graph, i, objects[i].name());
            i = i + 1;
            proof {
                assert(graph@ =~= head + object_nodes(sv.objects, i as int));
            }
        }
        graph.append("\n");
        let ghost after_objects = graph@;

        let primitives = self.primitive_assets();
        let mut i: usize = 0;
        while i < primitives.len()
            invariant
                i <= primitives@.len(),
                primitives@.map_values(|a: PrimitiveAsset<V>| a@) == sv.primitive_assets,
                graph@ == after_objects + primitive_nodes(sv.primitive_assets, i as int),
            decreases primitives@.len() - i,
        {
            proof {
                assert(primitives@.map_values(|a: PrimitiveAsset<V>| a@)[i as int]
                    == primitives@[i as int]@);
            }
            push_primitive_node(&mut graph, primitives[i].id().0, primitives[i].name());
            i = i + 1;
            proof {
                assert(graph@ =~= after_objects + primitive_nodes(sv.primitive_assets, i as int));
            }
        }
        graph.append("\n");
        let ghost after_primitives = graph@;

        let materials = self.material_assets();
        let mut i: usize = 0;
        while i < materials.len()
            invariant
                i <= materials@.len(),
                materials@.map_values(|a: MaterialAsset<M>| a@) == sv.material_assets,
                graph@ == after_primitives + material_nodes(sv.material_assets, i as int),
            decreases materials@.len() - i,
        {
            proof {
                assert(materials@.map_values(|a: MaterialAsset<M>| a@)[i as int]
                    == materials@[i as int]@);
            }
            push_material_node(&mut graph, i, materials[i].name());
            i = i + 1;
            proof {
                assert(graph@ =~= after_primitives + material_nodes(sv.material_assets, i as int));
            }
        }
        graph.append("\n");
        let ghost after_materials = graph@;

        let mut i: usize = 0;
        while i < objects.len()
            invariant
                i <= objects@.len(),
                objects@.map_values(|o: Object<T>| o@) == sv.objects,
                graph@ == after_materials + all_edges(sv.objects, i as int),
            decreases objects@.len() - i,
        {
            proof {
                assert(objects@.map_values(|o: Object<T>| o@)[i as int] == objects@[i as int]@);
            }
            push_object_edges(&mut graph, i, &objects[i]);
            i = i + 1;
            proof {
                assert(graph@ =~= after_materials + all_edges(sv.objects, i as int));
            }
        }
        proof {
            assert(graph@ =~= dependency_graph(sv));
        }
        graph
    }
}

} // verus!
