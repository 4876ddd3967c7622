//! Properties of every successful build, proved over the build model.

use crate::decode::decoded;
use crate::error::Payload;
use crate::event::{EventModel, RawAttributeModel};
use crate::model::{
    allocate, build_model, current_parent, decoded_attributes, initial_model, leaf_node,
    run_from, step, with_child, BuilderModel,
};
use crate::node::{AttributeModel, DocumentModel, NodeModel};
use vstd::prelude::*;

verus! {

/// Whether an event allocates a node.
pub open spec fn creates_node(e: EventModel) -> bool {
    ||| e is Comment
    ||| e is ProcessingInstruction
    ||| e is Text
    ||| e is CData
    ||| e is Start
    ||| e is Empty
}

/// The events that allocate nodes, in order, up to the first `Eof`.
pub open spec fn created_events(events: Seq<EventModel>) -> Seq<EventModel>
    decreases events.len(),
{
    if events.len() == 0 || events[0] is Eof {
        seq![]
    } else if creates_node(events[0]) {
        seq![events[0]] + created_events(events.drop_first())
    } else {
        created_events(events.drop_first())
    }
}

/// For each node-allocating event up to the first `Eof`, the number of
/// elements open when it comes, where `depth` are open at the start.
pub open spec fn depths_from(events: Seq<EventModel>, depth: nat) -> Seq<nat>
    decreases events.len(),
{
    if events.len() == 0 || events[0] is Eof {
        seq![]
    } else {
        match events[0] {
            EventModel::Start(_) => seq![depth] + depths_from(events.drop_first(), depth + 1),
            EventModel::End(_) => depths_from(
                events.drop_first(),
                if depth > 0 {
                    (depth - 1) as nat
                } else {
                    0
                },
            ),
            EventModel::Decl(_) => depths_from(events.drop_first(), depth),
            EventModel::DocType(_) => depths_from(events.drop_first(), depth),
            _ => seq![depth] + depths_from(events.drop_first(), depth),
        }
    }
}

/// The nesting depth of each node, in allocation order.
pub open spec fn nesting_depths(events: Seq<EventModel>) -> Seq<nat> {
    depths_from(events, 0)
}

/// The node reached from `n` by `k` steps up the parent chain, if the chain
/// is that long.
pub open spec fn ancestor(nodes: Seq<NodeModel>, n: nat, k: nat) -> Option<nat>
    decreases k,
{
    if k == 0 {
        Some(n)
    } else if n < nodes.len() {
        match nodes[n as int].parent() {
            Some(p) => ancestor(nodes, p, (k - 1) as nat),
            None => None,
        }
    } else {
        None
    }
}

/// The attributes of an element node; none for other nodes.
pub open spec fn attributes_of(node: NodeModel) -> Seq<AttributeModel> {
    match node {
        NodeModel::Element { attributes, .. } => attributes,
        _ => seq![],
    }
}

/// Whether `node` is what event `e` allocates, as far as element-ness and
/// attributes go.
pub open spec fn made_by(node: NodeModel, e: EventModel) -> bool {
    match e {
        EventModel::Start(t) => node is Element && decoded_attributes(t.attributes) == Ok::<
            Seq<AttributeModel>,
            Payload,
        >(attributes_of(node)),
        EventModel::Empty(t) => node is Element && decoded_attributes(t.attributes) == Ok::<
            Seq<AttributeModel>,
            Payload,
        >(attributes_of(node)),
        _ => !(node is Element),
    }
}

spec fn shape_ok(nodes: Seq<NodeModel>) -> bool {
    forall|n: int|
        0 <= n < nodes.len() ==> match #[trigger] nodes[n].parent() {
            Some(p) => p < n && nodes[p as int] is Element,
            None => true,
        }
}

spec fn open_ok(s: BuilderModel) -> bool {
    forall|k: int|
        0 <= k < s.open.len() ==> {
            &&& #[trigger] s.open[k].id < s.nodes.len()
            &&& s.nodes[s.open[k].id as int] is Element
            &&& s.root is Some
            &&& ancestor(s.nodes, s.open[k].id, k as nat) == s.root
        }
}

spec fn root_ok(s: BuilderModel) -> bool {
    &&& s.root matches Some(r) ==> r < s.nodes.len() && s.nodes[r as int] is Element
        && s.nodes[r as int].parent() is None
    &&& s.root is None ==> forall|n: int| 0 <= n < s.nodes.len() ==> !(#[trigger] s.nodes[n] is Element)
}

spec fn depth_ok(nodes: Seq<NodeModel>, root: Option<nat>, depths: Seq<nat>) -> bool {
    &&& depths.len() == nodes.len()
    &&& forall|n: int|
        0 <= n < nodes.len() ==> {
            &&& #[trigger] depths[n] == 0 ==> nodes[n].parent() is None
            &&& depths[n] == 0 && nodes[n] is Element ==> root == Some(n as nat)
            &&& depths[n] > 0 ==> root is Some && ancestor(nodes, n as nat, depths[n]) == root
        }
}

spec fn content_ok(nodes: Seq<NodeModel>, created: Seq<EventModel>) -> bool {
    &&& created.len() == nodes.len()
    &&& forall|n: int| 0 <= n < nodes.len() ==> made_by(#[trigger] nodes[n], created[n])
}

spec fn inv(s: BuilderModel, created: Seq<EventModel>, depths: Seq<nat>) -> bool {
    &&& shape_ok(s.nodes)
    &&& open_ok(s)
    &&& root_ok(s)
    &&& depth_ok(s.nodes, s.root, depths)
    &&& content_ok(s.nodes, created)
}

/// What a node table keeps when a child is linked and a node appended.
spec fn extends(old_nodes: Seq<NodeModel>, new_nodes: Seq<NodeModel>) -> bool {
    &&& old_nodes.len() <= new_nodes.len()
    &&& forall|m: int|
        0 <= m < old_nodes.len() ==> {
            &&& #[trigger] new_nodes[m].parent() == old_nodes[m].parent()
            &&& (new_nodes[m] is Element <==> old_nodes[m] is Element)
            &&& attributes_of(new_nodes[m]) == attributes_of(old_nodes[m])
        }
}

proof fn lemma_with_child_extends(nodes: Seq<NodeModel>, parent: Option<nat>, child: nat, node: NodeModel)
    ensures
        extends(nodes, with_child(nodes, parent, child).push(node)),
        with_child(nodes, parent, child).len() == nodes.len(),
{
    let w = with_child(nodes, parent, child);
    assert forall|m: int| 0 <= m < nodes.len() implies {
        &&& #[trigger] w.push(node)[m].parent() == nodes[m].parent()
        &&& (w.push(node)[m] is Element <==> nodes[m] is Element)
        &&& attributes_of(w.push(node)[m]) == attributes_of(nodes[m])
    } by {
        assert(w.push(node)[m] == w[m]);
    }
}

proof fn lemma_ancestor_stable(old_nodes: Seq<NodeModel>, new_nodes: Seq<NodeModel>, n: nat, k: nat)
    requires
        extends(old_nodes, new_nodes),
        shape_ok(old_nodes),
        n < old_nodes.len(),
    ensures
        ancestor(new_nodes, n, k) == ancestor(old_nodes, n, k),
    decreases k,
{
    if k > 0 {
        assert(new_nodes[n as int].parent() == old_nodes[n as int].parent());
        match old_nodes[n as int].parent() {
            Some(p) => {
                lemma_ancestor_stable(old_nodes, new_nodes, p, (k - 1) as nat);
            },
            None => {},
        }
    }
}

/// Allocating a node keeps the invariant, given what the new node is.
proof fn lemma_allocate(
    s: BuilderModel,
    created: Seq<EventModel>,
    depths: Seq<nat>,
    node: NodeModel,
    e: EventModel,
)
    requires
        inv(s, created, depths),
        node.parent() == current_parent(s),
        made_by(node, e),
        node is Element ==> s.open.len() > 0 || s.root is None,
    ensures
        ({
            let t = allocate(s, node);
            let id = s.nodes.len();
            let root = if node is Element && current_parent(s) is None {
                Some(id)
            } else {
                s.root
            };
            let u = BuilderModel { root, ..t };
            &&& shape_ok(u.nodes)
            &&& open_ok(u)
            &&& root_ok(u)
            &&& depth_ok(u.nodes, u.root, depths.push(s.open.len()))
            &&& content_ok(u.nodes, created.push(e))
            &&& (s.open.len() > 0 ==> ancestor(u.nodes, id, s.open.len()) == u.root)
            &&& u.nodes[id as int] == node
        }),
{
    let t = allocate(s, node);
    let id = s.nodes.len();
    let root = if node is Element && current_parent(s) is None {
        Some(id)
    } else {
        s.root
    };
    let u = BuilderModel { root, ..t };
    let nodes = u.nodes;
    lemma_with_child_extends(s.nodes, current_parent(s), id, node);
    assert(nodes.len() == id + 1);
    assert(nodes[id as int] == node);
    let l = s.open.len();
    if l > 0 {
        assert(s.open[l - 1].id < s.nodes.len());
    }
    assert(shape_ok(nodes)) by {
        assert forall|n: int| 0 <= n < nodes.len() implies match #[trigger] nodes[n].parent() {
            Some(p) => p < n && nodes[p as int] is Element,
            None => true,
        } by {
            if n < id {
                assert(nodes[n].parent() == s.nodes[n].parent());
                if let Some(p) = s.nodes[n].parent() {
                    assert(s.nodes[p as int] is Element);
                }
            } else {
                if l > 0 {
                    assert(s.open[l - 1].id < s.nodes.len());
                    assert(s.nodes[s.open[l - 1].id as int] is Element);
                }
            }
        }
    }
    assert forall|k: int| 0 <= k < s.open.len() implies ancestor(
        nodes,
        #[trigger] s.open[k].id,
        k as nat,
    ) == ancestor(s.nodes, s.open[k].id, k as nat) by {
        lemma_ancestor_stable(s.nodes, nodes, s.open[k].id, k as nat);
    }
    if l > 0 {
        assert(ancestor(nodes, id, l) == ancestor(nodes, s.open[l - 1].id, (l - 1) as nat));
        assert(s.open[l - 1].id == s.open[(l - 1) as int].id);
        assert(ancestor(nodes, id, l) == u.root);
    }
    assert(open_ok(u)) by {
        assert forall|k: int| 0 <= k < u.open.len() implies {
            &&& #[trigger] u.open[k].id < u.nodes.len()
            &&& u.nodes[u.open[k].id as int] is Element
            &&& u.root is Some
            &&& ancestor(u.nodes, u.open[k].id, k as nat) == u.root
        } by {
            assert(s.open[k].id < s.nodes.len());
        }
    }
    assert(root_ok(u)) by {
        if let Some(r) = s.root {
            if u.root == s.root {
                assert(nodes[r as int].parent() == s.nodes[r as int].parent());
            }
        }
        if u.root is None {
            assert forall|n: int| 0 <= n < nodes.len() implies !(#[trigger] nodes[n] is Element) by {
                if n < id {
                    assert(!(s.nodes[n] is Element));
                }
            }
        }
    }
    let ds = depths.push(l);
    assert(depth_ok(nodes, u.root, ds)) by {
        assert forall|n: int| 0 <= n < nodes.len() implies {
            &&& #[trigger] ds[n] == 0 ==> nodes[n].parent() is None
            &&& ds[n] == 0 && nodes[n] is Element ==> u.root == Some(n as nat)
            &&& ds[n] > 0 ==> u.root is Some && ancestor(nodes, n as nat, ds[n]) == u.root
        } by {
            if n < id {
                assert(ds[n] == depths[n]);
                assert(nodes[n].parent() == s.nodes[n].parent());
                assert(nodes[n] is Element <==> s.nodes[n] is Element);
                if depths[n] > 0 {
                    lemma_ancestor_stable(s.nodes, nodes, n as nat, depths[n]);
                    assert(s.root is Some);
                }
            }
        }
    }
    let cs = created.push(e);
    assert(content_ok(nodes, cs)) by {
        assert forall|n: int| 0 <= n < nodes.len() implies made_by(#[trigger] nodes[n], cs[n]) by {
            if n < id {
                assert(cs[n] == created[n]);
                assert(made_by(s.nodes[n], created[n]));
            }
        }
    }
}

/// One successful step keeps the invariant, with the step's node, if any,
/// recorded at the current depth.
proof fn lemma_step(s: BuilderModel, created: Seq<EventModel>, depths: Seq<nat>, e: EventModel)
    requires
        inv(s, created, depths),
        !(e is Eof),
        step(s, e) is Ok,
    ensures
        ({
            let t = step(s, e)->Ok_0;
            let events = seq![e];
            &&& inv(
                t,
                created + created_events(events),
                depths + depths_from(events, s.open.len()),
            )
            &&& e is Start ==> t.open.len() == s.open.len() + 1
            &&& e is End ==> t.open.len() + 1 == s.open.len()
            &&& !(e is Start) && !(e is End) ==> t.open.len() == s.open.len()
        }),
{
    let t = step(s, e)->Ok_0;
    let events = seq![e];
    let l = s.open.len();
    assert(events.drop_first() == Seq::<EventModel>::empty());
    assert(created_events(Seq::<EventModel>::empty()) == Seq::<EventModel>::empty());
    assert(depths_from(Seq::<EventModel>::empty(), l + 1) == Seq::<nat>::empty());
    assert(depths_from(Seq::<EventModel>::empty(), l) == Seq::<nat>::empty());
    if l > 0 {
        assert(depths_from(Seq::<EventModel>::empty(), (l - 1) as nat) == Seq::<nat>::empty());
    }
    match e {
        EventModel::Start(tag) | EventModel::Empty(tag) => {
            let name = decoded(tag.name)->Some_0;
            let attributes = decoded_attributes(tag.attributes)->Ok_0;
            let parent = current_parent(s);
            let node = NodeModel::Element { parent, name, attributes, children: seq![] };
            lemma_allocate(s, created, depths, node, e);
            assert(created_events(events) =~= seq![e]);
            assert(depths_from(events, l) =~= seq![l]);
            assert(created + seq![e] == created.push(e));
            assert(depths + seq![l] == depths.push(l));
            if e is Start {
                let id = s.nodes.len();
                assert forall|k: int| 0 <= k < t.open.len() implies {
                    &&& #[trigger] t.open[k].id < t.nodes.len()
                    &&& t.nodes[t.open[k].id as int] is Element
                    &&& t.root is Some
                    &&& ancestor(t.nodes, t.open[k].id, k as nat) == t.root
                } by {
                    if k < l {
                        assert(t.open[k] == s.open[k]);
                    } else {
                        assert(t.open[k].id == id);
                    }
                }
            }
        },
        EventModel::Comment(b) => {
            let node = leaf_node(Payload::Comment, current_parent(s), decoded(b)->Some_0);
            lemma_allocate(s, created, depths, node, e);
            assert(created_events(events) =~= seq![e]);
            assert(depths_from(events, l) =~= seq![l]);
            assert(created + seq![e] == created.push(e));
            assert(depths + seq![l] == depths.push(l));
        },
        EventModel::ProcessingInstruction(b) => {
            let node = leaf_node(
                Payload::ProcessingInstruction,
                current_parent(s),
                decoded(b)->Some_0,
            );
            lemma_allocate(s, created, depths, node, e);
            assert(created_events(events) =~= seq![e]);
            assert(depths_from(events, l) =~= seq![l]);
            assert(created + seq![e] == created.push(e));
            assert(depths + seq![l] == depths.push(l));
        },
        EventModel::Text(b) => {
            let node = leaf_node(Payload::Text, current_parent(s), decoded(b)->Some_0);
            lemma_allocate(s, created, depths, node, e);
            assert(created_events(events) =~= seq![e]);
            assert(depths_from(events, l) =~= seq![l]);
            assert(created + seq![e] == created.push(e));
            assert(depths + seq![l] == depths.push(l));
        },
        EventModel::CData(b) => {
            let node = leaf_node(Payload::CData, current_parent(s), decoded(b)->Some_0);
            lemma_allocate(s, created, depths, node, e);
            assert(created_events(events) =~= seq![e]);
            assert(depths_from(events, l) =~= seq![l]);
            assert(created + seq![e] == created.push(e));
            assert(depths + seq![l] == depths.push(l));
        },
        EventModel::End(_) => {
            assert(created_events(events) == Seq::<EventModel>::empty());
            assert(depths_from(events, l) == Seq::<nat>::empty());
            assert(created + Seq::<EventModel>::empty() == created);
            assert(depths + Seq::<nat>::empty() == depths);
            assert forall|k: int| 0 <= k < t.open.len() implies {
                &&& #[trigger] t.open[k].id < t.nodes.len()
                &&& t.nodes[t.open[k].id as int] is Element
                &&& t.root is Some
                &&& ancestor(t.nodes, t.open[k].id, k as nat) == t.root
            } by {
                assert(t.open[k] == s.open[k]);
            }
        },
        _ => {
            assert(created_events(events) == Seq::<EventModel>::empty());
            assert(depths_from(events, l) == Seq::<nat>::empty());
            assert(created + Seq::<EventModel>::empty() == created);
            assert(depths + Seq::<nat>::empty() == depths);
        },
    }
}

spec fn document_ok(doc: DocumentModel, created: Seq<EventModel>, depths: Seq<nat>) -> bool {
    &&& shape_ok(doc.nodes)
    &&& doc.nodes.len() > 0 ==> doc.root is Some
    &&& doc.root matches Some(r) ==> r < doc.nodes.len() && doc.nodes[r as int] is Element
        && doc.nodes[r as int].parent() is None
    &&& doc.root is None ==> forall|n: int|
        0 <= n < doc.nodes.len() ==> !(#[trigger] doc.nodes[n] is Element)
    &&& depth_ok(doc.nodes, doc.root, depths)
    &&& content_ok(doc.nodes, created)
}

proof fn lemma_split_first(events: Seq<EventModel>, depth: nat, next_depth: nat)
    requires
        events.len() > 0,
        !(events[0] is Eof),
        events[0] is Start ==> next_depth == depth + 1,
        events[0] is End ==> next_depth + 1 == depth,
        !(events[0] is Start) && !(events[0] is End) ==> next_depth == depth,
    ensures
        created_events(events) == created_events(seq![events[0]]) + created_events(
            events.drop_first(),
        ),
        depths_from(events, depth) == depths_from(seq![events[0]], depth) + depths_from(
            events.drop_first(),
            next_depth,
        ),
{
    let first = seq![events[0]];
    assert(first.drop_first() == Seq::<EventModel>::empty());
    assert(created_events(Seq::<EventModel>::empty()) == Seq::<EventModel>::empty());
    assert(depths_from(Seq::<EventModel>::empty(), next_depth) == Seq::<nat>::empty());
    assert(created_events(events) =~= created_events(first) + created_events(
        events.drop_first(),
    ));
    assert(depths_from(events, depth) =~= depths_from(first, depth) + depths_from(
        events.drop_first(),
        next_depth,
    ));
}

proof fn lemma_run(s: BuilderModel, events: Seq<EventModel>, created: Seq<EventModel>, depths: Seq<nat>)
    requires
        inv(s, created, depths),
        run_from(s, events) is Ok,
    ensures
        document_ok(
            run_from(s, events)->Ok_0,
            created + created_events(events),
            depths + depths_from(events, s.open.len()),
        ),
    decreases events.len(),
{
    if events.len() == 0 || events[0] is Eof {
        assert(created_events(events) == Seq::<EventModel>::empty());
        assert(depths_from(events, s.open.len()) == Seq::<nat>::empty());
        assert(created + Seq::<EventModel>::empty() == created);
        assert(depths + Seq::<nat>::empty() == depths);
    } else {
        let e = events[0];
        let t = step(s, e)->Ok_0;
        lemma_step(s, created, depths, e);
        let c1 = created + created_events(seq![e]);
        let d1 = depths + depths_from(seq![e], s.open.len());
        lemma_run(t, events.drop_first(), c1, d1);
        lemma_split_first(events, s.open.len(), t.open.len());
        assert(c1 + created_events(events.drop_first()) == created + created_events(events));
        assert(d1 + depths_from(events.drop_first(), t.open.len()) == depths + depths_from(
            events,
            s.open.len(),
        ));
    }
}

proof fn lemma_build(events: Seq<EventModel>)
    requires
        build_model(events) is Ok,
    ensures
        document_ok(build_model(events)->Ok_0, created_events(events), nesting_depths(events)),
{
    let s = initial_model();
    assert(inv(s, seq![], seq![]));
    lemma_run(s, events, seq![], seq![]);
    assert(Seq::<EventModel>::empty() + created_events(events) == created_events(events));
    assert(Seq::<nat>::empty() + depths_from(events, 0) == depths_from(events, 0));
}

/// In a document built from `events`, following parents from a node made
/// while `d` elements were open takes exactly `d` steps to a node without a
/// parent: the root when `d > 0`, the node itself when `d == 0`. The only
/// element made at depth 0 is the root; other nodes at depth 0 are the
/// comments, text and the like outside it.
pub proof fn lemma_parent_chain_depth(events: Seq<EventModel>)
    requires
        build_model(events) is Ok,
    ensures
        ({
            let doc = build_model(events)->Ok_0;
            let depths = nesting_depths(events);
            &&& depths.len() == doc.nodes.len()
            &&& doc.root matches Some(r) ==> r < doc.nodes.len() && doc.nodes[r as int].parent() is None
            &&& forall|n: int|
                0 <= n < doc.nodes.len() ==> {
                    &&& #[trigger] depths[n] == 0 ==> doc.nodes[n].parent() is None
                    &&& depths[n] == 0 && doc.nodes[n] is Element ==> doc.root == Some(n as nat)
                    &&& depths[n] > 0 ==> doc.root is Some && ancestor(
                        doc.nodes,
                        n as nat,
                        depths[n],
                    ) == doc.root
                }
            &&& forall|n: int|
                0 <= n < doc.nodes.len() ==> match #[trigger] doc.nodes[n].parent() {
                    Some(p) => p < n,
                    None => true,
                }
        }),
{
    lemma_build(events);
}

/// A successful build allocates one node for each comment, processing
/// instruction, text, CDATA section, start tag and empty-element tag, in
/// that order; a document with nodes has a root, and it names an element.
pub proof fn lemma_node_count(events: Seq<EventModel>)
    requires
        build_model(events) is Ok,
    ensures
        ({
            let doc = build_model(events)->Ok_0;
            &&& doc.nodes.len() == created_events(events).len()
            &&& doc.nodes.len() > 0 ==> doc.root is Some
            &&& doc.root matches Some(r) ==> r < doc.nodes.len() && doc.nodes[r as int] is Element
        }),
{
    lemma_build(events);
}

/// Where the only node-making events are start and empty-element tags, the
/// number of nodes is the number of those tags, and a document with nodes
/// has a root that names an element.
pub proof fn lemma_node_count_of_tags(events: Seq<EventModel>)
    requires
        build_model(events) is Ok,
        forall|i: int|
            0 <= i < created_events(events).len() ==> #[trigger] created_events(events)[i] is Start
                || created_events(events)[i] is Empty,
    ensures
        ({
            let doc = build_model(events)->Ok_0;
            &&& doc.nodes.len() == created_events(events).len()
            &&& doc.nodes.len() > 0 ==> (doc.root matches Some(r) && r < doc.nodes.len()
                && doc.nodes[r as int] is Element)
        }),
{
    lemma_build(events);
    let doc = build_model(events)->Ok_0;
    if doc.nodes.len() > 0 {
        assert(made_by(doc.nodes[0], created_events(events)[0]));
        assert(doc.nodes[0] is Element);
    }
}

proof fn lemma_decoded_attributes_pointwise(raw: Seq<RawAttributeModel>)
    requires
        decoded_attributes(raw) is Ok,
    ensures
        ({
            let m = decoded_attributes(raw)->Ok_0;
            &&& m.len() == raw.len()
            &&& forall|j: int|
                0 <= j < raw.len() ==> decoded(raw[j].local_name) == Some(#[trigger] m[j].local_name)
                    && decoded(raw[j].value) == Some(m[j].value)
        }),
    decreases raw.len(),
{
    if raw.len() > 0 {
        lemma_decoded_attributes_pointwise(raw.drop_last());
        let m = decoded_attributes(raw)->Ok_0;
        let prev = decoded_attributes(raw.drop_last())->Ok_0;
        assert forall|j: int| 0 <= j < raw.len() implies decoded(raw[j].local_name) == Some(
            #[trigger] m[j].local_name,
        ) && decoded(raw[j].value) == Some(m[j].value) by {
            if j < raw.len() - 1 {
                assert(m[j] == prev[j]);
                assert(raw[j] == raw.drop_last()[j]);
            }
        }
    }
}

/// Every element keeps the attributes of its tag in the order written: the
/// `j`-th attribute of the node made by a start or empty-element tag is that
/// tag's `j`-th attribute, decoded.
pub proof fn lemma_attribute_order(events: Seq<EventModel>)
    requires
        build_model(events) is Ok,
    ensures
        ({
            let doc = build_model(events)->Ok_0;
            let created = created_events(events);
            &&& created.len() == doc.nodes.len()
            &&& forall|n: int|
                0 <= n < created.len() ==> match #[trigger] created[n] {
                    EventModel::Start(tag) | EventModel::Empty(tag) => {
                        let attributes = attributes_of(doc.nodes[n]);
                        &&& doc.nodes[n] is Element
                        &&& attributes.len() == tag.attributes.len()
                        &&& forall|j: int|
                            0 <= j < attributes.len() ==> Some(#[trigger] attributes[j].local_name)
                                == decoded(tag.attributes[j].local_name) && Some(
                                attributes[j].value,
                            ) == decoded(tag.attributes[j].value)
                    },
                    _ => !(doc.nodes[n] is Element),
                }
        }),
{
    lemma_build(events);
    let doc = build_model(events)->Ok_0;
    let created = created_events(events);
    assert forall|n: int| 0 <= n < created.len() implies match #[trigger] created[n] {
        EventModel::Start(tag) | EventModel::Empty(tag) => {
            let attributes = attributes_of(doc.nodes[n]);
            &&& doc.nodes[n] is Element
            &&& attributes.len() == tag.attributes.len()
            &&& forall|j: int|
                0 <= j < attributes.len() ==> Some(#[trigger] attributes[j].local_name) == decoded(
                    tag.attributes[j].local_name,
                ) && Some(attributes[j].value) == decoded(tag.attributes[j].value)
        },
        _ => !(doc.nodes[n] is Element),
    } by {
        assert(made_by(doc.nodes[n], created[n]));
        match created[n] {
            EventModel::Start(tag) | EventModel::Empty(tag) => {
                lemma_decoded_attributes_pointwise(tag.attributes);
            },
            _ => {},
        }
    }
}

/// Building is deterministic: the same events give the same outcome, down
/// to every payload, every order and every identifier.
pub proof fn lemma_build_deterministic(first: Seq<EventModel>, second: Seq<EventModel>)
    requires
        first == second,
    ensures
        build_model(first) == build_model(second),
{
}

} // verus!
