use xml_document::{
    build_document, deserialize_to_document, Document, Node, NodeId, RawAttribute, RawTag, XmlEvent,
};

fn parse(xml: &str) -> Document {
    deserialize_to_document(xml).unwrap()
}

fn parent(doc: &Document, id: NodeId) -> Option<NodeId> {
    doc.get(id).unwrap().parent()
}

/// Steps up the parent chain until a node without a parent.
fn chain_length(doc: &Document, id: NodeId) -> (usize, NodeId) {
    let mut steps = 0;
    let mut at = id;
    while let Some(p) = parent(doc, at) {
        assert!(p < at);
        steps += 1;
        at = p;
    }
    (steps, at)
}

#[test]
fn parent_chains_are_as_long_as_the_nesting() {
    let doc = parse("<a><b><c/>t</b><d/></a>");
    let root = doc.root().unwrap();
    // a=0 b=1 c=2 t=3 d=4
    let expected = [0usize, 1, 2, 2, 1];
    for (id, depth) in expected.iter().enumerate() {
        let (steps, top) = chain_length(&doc, id);
        assert_eq!(steps, *depth);
        assert_eq!(top, root);
    }
}

#[test]
fn node_count_is_the_number_of_tags() {
    let doc = parse("<a><b></b><c/><d><e/></d></a>");
    assert_eq!(doc.nodes.len(), 5);
    let root = doc.root().unwrap();
    assert!(matches!(doc.get(root), Some(Node::Element(_))));
}

#[test]
fn node_count_counts_leaves_too() {
    let doc = parse("<a>x<!--y--><b/></a>");
    assert_eq!(doc.nodes.len(), 4);
}

#[test]
fn attributes_keep_source_order() {
    let doc = parse("<a z=\"1\" b=\"2\" m=\"3\" a=\"4\"/>");
    let names: Vec<&str> = match doc.get(0) {
        Some(Node::Element(e)) => e.attributes.iter().map(|a| a.local_name.as_str()).collect(),
        _ => panic!("root is not an element"),
    };
    assert_eq!(names, vec!["z", "b", "m", "a"]);
}

#[test]
fn building_twice_gives_the_same_tree() {
    let xml = "<?xml version=\"1.0\"?><a k=\"v\"><b>t</b><!--c--><d/></a>";
    let first = parse(xml);
    let second = parse(xml);
    assert_eq!(first, second);
}

#[test]
fn building_twice_from_events_gives_the_same_tree() {
    let tag = |name: &str| RawTag {
        name: name.as_bytes().to_vec(),
        attributes: vec![RawAttribute { local_name: b"k".to_vec(), value: b"v".to_vec() }],
    };
    let events = vec![
        XmlEvent::Start(tag("a")),
        XmlEvent::Text(b"t".to_vec()),
        XmlEvent::Empty(tag("b")),
        XmlEvent::End(b"a".to_vec()),
        XmlEvent::Eof,
    ];
    let first = build_document(&events).unwrap();
    let second = build_document(&events).unwrap();
    assert_eq!(first, second);
    assert_eq!(first.nodes.len(), 3);
}
