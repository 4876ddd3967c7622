use xml_document::{
    deserialize_to_document, Document, Error, ErrorKind, Node, NodeId, Payload,
};

fn parse(xml: &str) -> Document {
    match deserialize_to_document(xml) {
        Ok(doc) => doc,
        Err(e) => panic!("unexpected error {:?}", e),
    }
}

fn kind_of(xml: &str) -> ErrorKind {
    match deserialize_to_document(xml) {
        Ok(_) => panic!("expected an error for {}", xml),
        Err(e) => e.kind(),
    }
}

fn element(doc: &Document, id: NodeId) -> &xml_document::Element {
    match doc.get(id) {
        Some(Node::Element(e)) => e,
        other => panic!("node {} is not an element: {:?}", id, other),
    }
}

#[test]
fn single_empty_element() {
    let doc = parse("<a/>");
    assert_eq!(doc.nodes.len(), 1);
    assert_eq!(doc.root(), Some(0));
    let a = element(&doc, 0);
    assert_eq!(a.name, "a");
    assert_eq!(a.parent, None);
    assert!(a.children.is_empty());
    assert!(a.attributes.is_empty());
    assert_eq!(doc.decl().0, "");
    assert_eq!(doc.doc_type().0, "");
}

#[test]
fn end_tag_naming_outer_element_is_mismatched() {
    assert_eq!(kind_of("<a><b></a>"), ErrorKind::MismatchedTag);
}

#[test]
fn missing_end_tag_is_unclosed() {
    assert_eq!(kind_of("<a><b></b>"), ErrorKind::UnclosedElement);
}

#[test]
fn repeated_attribute_is_rejected() {
    assert_eq!(kind_of("<a x=\"1\" x=\"2\"/>"), ErrorKind::DuplicateAttribute);
}

#[test]
fn declaration_after_root_is_misplaced() {
    assert_eq!(
        kind_of("<?xml version=\"1.0\"?><a/><?xml version=\"1.1\"?>"),
        ErrorKind::MisplacedDecl
    );
}

#[test]
fn mixed_children_keep_document_order() {
    let doc = parse("<a><!--hi--><b/>text</a>");
    let root = doc.root().unwrap();
    let a = element(&doc, root);
    assert_eq!(a.name, "a");
    assert_eq!(a.children.len(), 3);
    match doc.get(a.children[0]) {
        Some(Node::Comment(c)) => {
            assert_eq!(c.data, "hi");
            assert_eq!(c.parent, Some(root));
        }
        other => panic!("expected a comment, got {:?}", other),
    }
    let b = element(&doc, a.children[1]);
    assert_eq!(b.name, "b");
    assert_eq!(b.parent, Some(root));
    match doc.get(a.children[2]) {
        Some(Node::Text(t)) => {
            assert_eq!(t.data, "text");
            assert_eq!(t.parent, Some(root));
        }
        other => panic!("expected text, got {:?}", other),
    }
}

#[test]
fn declaration_and_doctype_are_recorded() {
    let doc = parse("<?xml version=\"1.0\"?><!DOCTYPE a><a/>");
    assert_eq!(doc.decl().0, "xml version=\"1.0\"");
    assert_eq!(doc.doc_type().0, "a");
    assert_eq!(doc.nodes.len(), 1);
}

#[test]
fn second_doctype_is_misplaced() {
    assert_eq!(kind_of("<!DOCTYPE a><!DOCTYPE b><a/>"), ErrorKind::MisplacedDocType);
    assert_eq!(kind_of("<a/><!DOCTYPE a>"), ErrorKind::MisplacedDocType);
}

#[test]
fn second_declaration_before_root_is_misplaced() {
    assert_eq!(
        kind_of("<?xml version=\"1.0\"?><?xml version=\"1.0\"?><a/>"),
        ErrorKind::MisplacedDecl
    );
}

#[test]
fn end_tag_without_open_element_is_mismatched() {
    assert_eq!(kind_of("<a/></a>"), ErrorKind::MismatchedTag);
}

#[test]
fn second_top_level_element_is_rejected() {
    assert_eq!(kind_of("<a/><b/>"), ErrorKind::MultipleRoots);
}

#[test]
fn malformed_markup_is_a_lex_error() {
    assert_eq!(kind_of("<a><!-- never closed"), ErrorKind::Lex);
    assert_eq!(kind_of("<a x></a>"), ErrorKind::Lex);
}

#[test]
fn cdata_and_processing_instruction_become_leaves() {
    let doc = parse("<a><![CDATA[x<y]]><?pi data?></a>");
    let a = element(&doc, 0);
    assert_eq!(a.children, vec![1, 2]);
    match doc.get(1) {
        Some(Node::CData(c)) => assert_eq!(c.data, "x<y"),
        other => panic!("expected CDATA, got {:?}", other),
    }
    match doc.get(2) {
        Some(Node::ProcessingInstruction(p)) => assert_eq!(p.data, "pi data"),
        other => panic!("expected a processing instruction, got {:?}", other),
    }
}

#[test]
fn attribute_local_names_drop_the_prefix() {
    let doc = parse("<a p:x=\"1\" y=\"&amp;\"/>");
    let a = element(&doc, 0);
    assert_eq!(a.attributes.len(), 2);
    assert_eq!(a.attributes[0].local_name, "x");
    assert_eq!(a.attributes[0].value, "1");
    assert_eq!(a.attributes[1].local_name, "y");
    assert_eq!(a.attributes[1].value, "&amp;");
}

#[test]
fn prefixed_duplicates_share_a_local_name() {
    assert_eq!(kind_of("<a p:x=\"1\" q:x=\"2\"/>"), ErrorKind::DuplicateAttribute);
}

#[test]
fn markup_outside_the_root_becomes_top_level_siblings() {
    let doc = parse("<!--before--><a/>\n");
    assert_eq!(doc.nodes.len(), 3);
    assert_eq!(doc.root(), Some(1));
    assert_eq!(doc.parent_of(0), None);
    assert_eq!(doc.parent_of(2), None);
    match doc.get(2) {
        Some(Node::Text(t)) => assert_eq!(t.data, "\n"),
        other => panic!("expected text, got {:?}", other),
    }
}

#[test]
fn empty_input_gives_an_empty_document() {
    let doc = parse("");
    assert!(doc.nodes.is_empty());
    assert_eq!(doc.root(), None);
}

#[test]
fn navigation_answers_unknown_ids() {
    let doc = parse("<a><b/></a>");
    assert!(doc.get(2).is_none());
    assert_eq!(doc.parent_of(7), None);
    assert!(doc.children_of(7).is_empty());
    assert_eq!(doc.children_of(0), &[1]);
    assert_eq!(doc.parent_of(1), Some(0));
    assert!(doc.children_of(1).is_empty());
}

#[test]
fn error_kind_names_the_decoded_payload() {
    let e = Error::Decode(xml_document::DecodeError {
        payload: Payload::Text,
        source: std::str::from_utf8(&[0xffu8]).unwrap_err(),
    });
    assert_eq!(e.kind(), ErrorKind::Decode(Payload::Text));
}

#[test]
fn defaults_are_empty() {
    let doc = Document::default();
    assert!(doc.nodes.is_empty());
    assert_eq!(doc.root(), None);
    assert_eq!(doc.decl().0, "");
    assert_eq!(doc.doc_type().0, "");
    assert_eq!(xml_document::DocDecl::default().0, "");
    assert_eq!(xml_document::DocType::default().0, "");
}

#[test]
fn quick_xml_errors_convert_to_lex_errors() {
    let e: Error = quick_xml::Error::Syntax(quick_xml::errors::SyntaxError::UnclosedComment).into();
    assert_eq!(e.kind(), ErrorKind::Lex);
    assert!(matches!(e, Error::Lex(_)));
}

#[test]
fn unclosed_comment_reports_the_lexer_error() {
    match deserialize_to_document("<a><!-- open") {
        Err(Error::Lex(quick_xml::Error::Syntax(s))) => {
            assert_eq!(s, quick_xml::errors::SyntaxError::UnclosedComment)
        }
        other => panic!("unexpected {:?}", other.map(|d| d.nodes.len())),
    }
}

#[test]
fn nodes_without_an_element_are_rejected() {
    assert_eq!(kind_of("<!--only a comment-->"), ErrorKind::NoRootElement);
    assert_eq!(kind_of("just text"), ErrorKind::NoRootElement);
    assert_eq!(kind_of("<?pi x?>"), ErrorKind::NoRootElement);
}

#[test]
fn lexer_error_after_a_rejected_event_reports_the_rejection() {
    assert_eq!(kind_of("</a><!-- never closed"), ErrorKind::MismatchedTag);
    assert_eq!(kind_of("<a/><!-- never closed"), ErrorKind::Lex);
}
