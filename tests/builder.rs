use xml_document::{
    build_document, build_from_lexed, DocumentBuilder, Error, ErrorKind, Node, Payload,
    RawAttribute, RawTag, XmlEvent,
};

fn tag(name: &[u8], attributes: &[(&[u8], &[u8])]) -> RawTag {
    RawTag {
        name: name.to_vec(),
        attributes: attributes
            .iter()
            .map(|(k, v)| RawAttribute { local_name: k.to_vec(), value: v.to_vec() })
            .collect(),
    }
}

fn kind_of(events: &[XmlEvent]) -> ErrorKind {
    match build_document(events) {
        Ok(_) => panic!("expected an error"),
        Err(e) => e.kind(),
    }
}

#[test]
fn invalid_utf8_in_each_payload_is_reported() {
    let bad: &[u8] = &[0x61, 0xff];
    assert_eq!(kind_of(&[XmlEvent::Decl(bad.to_vec())]), ErrorKind::Decode(Payload::Declaration));
    assert_eq!(kind_of(&[XmlEvent::DocType(bad.to_vec())]), ErrorKind::Decode(Payload::DocType));
    assert_eq!(kind_of(&[XmlEvent::Comment(bad.to_vec())]), ErrorKind::Decode(Payload::Comment));
    assert_eq!(
        kind_of(&[XmlEvent::ProcessingInstruction(bad.to_vec())]),
        ErrorKind::Decode(Payload::ProcessingInstruction)
    );
    assert_eq!(kind_of(&[XmlEvent::Text(bad.to_vec())]), ErrorKind::Decode(Payload::Text));
    assert_eq!(kind_of(&[XmlEvent::CData(bad.to_vec())]), ErrorKind::Decode(Payload::CData));
    assert_eq!(kind_of(&[XmlEvent::Empty(tag(bad, &[]))]), ErrorKind::Decode(Payload::TagName));
    assert_eq!(
        kind_of(&[XmlEvent::Empty(tag(b"a", &[(bad, b"v")]))]),
        ErrorKind::Decode(Payload::AttributeName)
    );
    assert_eq!(
        kind_of(&[XmlEvent::Empty(tag(b"a", &[(b"k", bad)]))]),
        ErrorKind::Decode(Payload::AttributeValue)
    );
}

#[test]
fn end_of_events_counts_as_eof() {
    let doc = build_document(&[XmlEvent::Empty(tag(b"a", &[]))]).unwrap();
    assert_eq!(doc.nodes.len(), 1);
    assert_eq!(kind_of(&[XmlEvent::Start(tag(b"a", &[]))]), ErrorKind::UnclosedElement);
}

#[test]
fn events_after_eof_are_not_consumed() {
    let doc = build_document(&[
        XmlEvent::Empty(tag(b"a", &[])),
        XmlEvent::Eof,
        XmlEvent::End(b"zzz".to_vec()),
    ])
    .unwrap();
    assert_eq!(doc.nodes.len(), 1);
}

#[test]
fn builder_steps_leave_state_unchanged_on_error() {
    let mut b = DocumentBuilder::new();
    b.handle(&XmlEvent::Start(tag(b"a", &[]))).unwrap();
    assert_eq!(b.handle(&XmlEvent::End(b"b".to_vec())).unwrap_err().kind(), ErrorKind::MismatchedTag);
    b.handle(&XmlEvent::End(b"a".to_vec())).unwrap();
    let doc = b.build().unwrap();
    assert_eq!(doc.nodes.len(), 1);
}

#[test]
fn set_decl_and_set_doctype_record_text() {
    let mut b = DocumentBuilder::new();
    b.set_decl(b"xml version=\"1.0\"").unwrap();
    b.set_doctype(b"root").unwrap();
    assert_eq!(b.set_decl(b"xml").unwrap_err().kind(), ErrorKind::MisplacedDecl);
    assert_eq!(b.set_doctype(b"x").unwrap_err().kind(), ErrorKind::MisplacedDocType);
    b.handle(&XmlEvent::Empty(tag(b"root", &[]))).unwrap();
    let doc = b.build().unwrap();
    assert_eq!(doc.decl.0, "xml version=\"1.0\"");
    assert_eq!(doc.doc_type.0, "root");
}

#[test]
fn multibyte_payloads_decode() {
    let doc = build_document(&[
        XmlEvent::Start(tag("é".as_bytes(), &[("ü".as_bytes(), "ß".as_bytes())])),
        XmlEvent::Text("日本".as_bytes().to_vec()),
        XmlEvent::End("é".as_bytes().to_vec()),
    ])
    .unwrap();
    match &doc.nodes[0] {
        Node::Element(e) => {
            assert_eq!(e.name, "é");
            assert_eq!(e.attributes[0].local_name, "ü");
            assert_eq!(e.attributes[0].value, "ß");
        }
        _ => panic!("not an element"),
    }
    match &doc.nodes[1] {
        Node::Text(t) => assert_eq!(t.data, "日本"),
        _ => panic!("not text"),
    }
}

#[test]
fn duplicate_check_compares_whole_names() {
    let doc =
        build_document(&[XmlEvent::Empty(tag(b"a", &[(b"x", b"1"), (b"xy", b"2"), (b"y", b"3")]))])
            .unwrap();
    match &doc.nodes[0] {
        Node::Element(e) => assert_eq!(e.attributes.len(), 3),
        _ => panic!("not an element"),
    }
    assert_eq!(
        kind_of(&[XmlEvent::Empty(tag(b"a", &[(b"x", b"1"), (b"y", b"2"), (b"x", b"3")]))]),
        ErrorKind::DuplicateAttribute
    );
}

#[test]
fn builder_rejects_rootless_nodes_at_the_end() {
    let mut b = DocumentBuilder::new();
    b.handle(&XmlEvent::Comment(b"c".to_vec())).unwrap();
    assert_eq!(b.build().unwrap_err().kind(), ErrorKind::NoRootElement);
    assert_eq!(kind_of(&[XmlEvent::Text(b"t".to_vec()), XmlEvent::Eof]), ErrorKind::NoRootElement);
}

#[test]
fn lexed_failure_comes_after_the_events() {
    let failure = || Some(quick_xml::Error::Syntax(quick_xml::errors::SyntaxError::UnclosedTag));
    let ok_events = vec![XmlEvent::Start(tag(b"a", &[]))];
    match build_from_lexed(&ok_events, failure()) {
        Err(Error::Lex(quick_xml::Error::Syntax(s))) => {
            assert_eq!(s, quick_xml::errors::SyntaxError::UnclosedTag)
        }
        other => panic!("expected the lexer's error, got {:?}", other.map(|d| d.nodes.len())),
    }
    let bad_events = vec![XmlEvent::End(b"a".to_vec())];
    assert_eq!(build_from_lexed(&bad_events, failure()).unwrap_err().kind(), ErrorKind::MismatchedTag);
    let doc = build_from_lexed(&[XmlEvent::Empty(tag(b"a", &[]))], None).unwrap();
    assert_eq!(doc.nodes.len(), 1);
    assert_eq!(doc.root(), Some(0));
}
