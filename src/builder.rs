//! The tree builder: consumes events in order and yields a [`Document`].
//!
//! Policies where markup leaves a choice:
//! - Text (whitespace or not), comments, processing instructions and CDATA
//!   outside every element become top-level nodes without a parent,
//!   siblings of the root.
//! - Two attributes of one element with the same local name are rejected
//!   with [`Error::DuplicateAttribute`]; neither wins.
//! - A second top-level element is rejected with [`Error::MultipleRoots`].
//! - Input that makes nodes but no element is rejected at its end with
//!   [`Error::NoRootElement`], so a document has nodes exactly when it has a
//!   root element. Input with no nodes at all gives an empty document.
//! - An end tag must repeat the bytes of the innermost open start tag's name.

use crate::decode::decode_text;
use crate::error::{DecodeError, Error, ErrorKind, Payload};
use crate::event::{events_model, RawAttribute, RawAttributeModel, RawTag, XmlEvent};
use crate::model::{
    add_leaf_model, allocate, build_model, close_element_model, current_parent,
    decoded_attributes, finish_model, has_duplicate_name, initial_model, is_leaf_payload,
    leaf_node, lemma_run_from_steps, open_element_model, run_steps, set_decl_model, set_doctype_model, step,
    with_child, BuilderModel, OpenTag,
};
use crate::node::{
    attributes_model, id_model, ids_model, nodes_model, Attribute, AttributeModel, CData,
    Comment, DocDecl, DocType, Document, DocumentModel, Element, Node, NodeId, NodeModel,
    ProcessingInstruction, Text,
};
use vstd::prelude::*;

verus! {

/// An open element: its identifier and the raw name of its start tag.
struct OpenElement {
    id: NodeId,
    name: Vec<u8>,
}

impl View for OpenElement {
    type V = OpenTag;

    closed spec fn view(&self) -> OpenTag {
        OpenTag { id: self.id as nat, name: self.name@ }
    }
}

/// What a step promises: on success the new state is `expected`; on failure
/// the error has the expected kind and the state is unchanged.
pub open spec fn step_outcome(
    before: BuilderModel,
    after: BuilderModel,
    r: Result<(), Error>,
    expected: Result<BuilderModel, ErrorKind>,
) -> bool {
    match expected {
        Ok(t) => r is Ok && after == t,
        Err(k) => r matches Err(e) && e.kind_spec() == k && after == before,
    }
}

/// What a finished build promises.
pub open spec fn document_outcome(
    r: Result<Document, Error>,
    expected: Result<DocumentModel, ErrorKind>,
) -> bool {
    match expected {
        Ok(d) => r matches Ok(doc) && doc@ == d,
        Err(k) => r matches Err(e) && e.kind_spec() == k,
    }
}

/// Builds a [`Document`] from events handed to it one at a time.
pub struct DocumentBuilder {
    decl: Option<DocDecl>,
    doc_type: Option<DocType>,
    nodes: Vec<Node>,
    root: Option<NodeId>,
    open: Vec<OpenElement>,
}

impl View for DocumentBuilder {
    type V = BuilderModel;

    closed spec fn view(&self) -> BuilderModel {
        BuilderModel {
            decl: match self.decl {
                Some(d) => Some(d.0@),
                None => None,
            },
            doc_type: match self.doc_type {
                Some(d) => Some(d.0@),
                None => None,
            },
            nodes: nodes_model(self.nodes@),
            root: id_model(self.root),
            open: self.open@.map_values(|o: OpenElement| o@),
        }
    }
}

/// Whether two byte strings are equal.
fn same_bytes(a: &[u8], b: &[u8]) -> (r: bool)
    ensures
        r == (a@ == b@),
{
    if a.len() != b.len() {
        return false;
    }
    let mut i: usize = 0;
    while i < a.len()
        invariant
            a@.len() == b@.len(),
            0 <= i <= a@.len(),
            a@.subrange(0, i as int) == b@.subrange(0, i as int),
        decreases a@.len() - i,
    {
        if a[i] != b[i] {
            assert(a@[i as int] != b@[i as int]);
            return false;
        }
        assert(a@.subrange(0, i + 1) == a@.subrange(0, i as int).push(a@[i as int]));
        assert(b@.subrange(0, i + 1) == b@.subrange(0, i as int).push(b@[i as int]));
        i = i + 1;
    }
    assert(a@ == a@.subrange(0, i as int));
    assert(b@ == b@.subrange(0, i as int));
    true
}

/// Whether two of `attributes` share a local name.
fn has_duplicate(attributes: &Vec<RawAttribute>) -> (r: bool)
    ensures
        r == has_duplicate_name(attributes@.map_values(|a: RawAttribute| a@)),
{
    let ghost raw = attributes@.map_values(|a: RawAttribute| a@);
    let mut j: usize = 0;
    while j < attributes.len()
        invariant
            raw == attributes@.map_values(|a: RawAttribute| a@),
            0 <= j <= attributes@.len(),
            forall|x: int, y: int|
                0 <= x < y < j ==> raw[x].local_name != raw[y].local_name,
        decreases attributes@.len() - j,
    {
        let mut i: usize = 0;
        while i < j
            invariant
                raw == attributes@.map_values(|a: RawAttribute| a@),
                0 <= i <= j < attributes@.len(),
                forall|x: int| 0 <= x < i ==> raw[x].local_name != raw[j as int].local_name,
            decreases j - i,
        {
            if same_bytes(attributes[i].local_name.as_slice(), attributes[j].local_name.as_slice()) {
                assert(raw[i as int].local_name == raw[j as int].local_name);
                return true;
            }
            i = i + 1;
        }
        j = j + 1;
    }
    false
}

/// A failure to decode a prefix of the attributes is the failure of them all.
proof fn lemma_decode_failure_persists(raw: Seq<RawAttributeModel>, k: nat)
    requires
        k <= raw.len(),
        decoded_attributes(raw.subrange(0, k as int)) is Err,
    ensures
        decoded_attributes(raw) == decoded_attributes(raw.subrange(0, k as int)),
    decreases raw.len(),
{
    if raw.len() == k {
        assert(raw.subrange(0, k as int) == raw);
    } else {
        assert(raw.drop_last().subrange(0, k as int) == raw.subrange(0, k as int));
        lemma_decode_failure_persists(raw.drop_last(), k);
    }
}

/// Decodes every attribute, in order.
fn decode_attributes(raw: &Vec<RawAttribute>) -> (r: Result<Vec<Attribute>, Error>)
    ensures
        match decoded_attributes(raw@.map_values(|a: RawAttribute| a@)) {
            Ok(m) => r matches Ok(v) && attributes_model(v@) == m,
            Err(p) => r matches Err(e) && e.kind_spec() == ErrorKind::Decode(p),
        },
{
    let ghost model = raw@.map_values(|a: RawAttribute| a@);
    let mut out: Vec<Attribute> = Vec::new();
    let mut i: usize = 0;
    assert(model.subrange(0, 0) == Seq::<RawAttributeModel>::empty());
    assert(attributes_model(out@) == Seq::<AttributeModel>::empty());
    while i < raw.len()
        invariant
            model == raw@.map_values(|a: RawAttribute| a@),
            0 <= i <= raw@.len(),
            decoded_attributes(model.subrange(0, i as int)) == Ok::<Seq<AttributeModel>, Payload>(
                attributes_model(out@),
            ),
        decreases raw@.len() - i,
    {
        let ghost prefix = model.subrange(0, i + 1);
        assert(prefix.drop_last() == model.subrange(0, i as int));
        assert(prefix.last() == raw@[i as int]@);
        let local_name = match decode_text(raw[i].local_name.as_slice()) {
            Ok(s) => s,
            Err(e) => {
                proof {
                    lemma_decode_failure_persists(model, i as nat + 1);
                }
                return Err(
                    Error::Decode(DecodeError { payload: Payload::AttributeName, source: e }),
                );
            },
        };
        let value = match decode_text(raw[i].value.as_slice()) {
            Ok(s) => s,
            Err(e) => {
                proof {
                    lemma_decode_failure_persists(model, i as nat + 1);
                }
                return Err(
                    Error::Decode(DecodeError { payload: Payload::AttributeValue, source: e }),
                );
            },
        };
        let ghost before = out@;
        out.push(Attribute { local_name, value });
        assert(attributes_model(out@) == attributes_model(before).push(out@.last()@));
        i = i + 1;
    }
    assert(model.subrange(0, i as int) == model);
    Ok(out)
}

impl DocumentBuilder {
    /// A builder that has seen no event.
    pub fn new() -> (r: Self)
        ensures
            r@ == initial_model(),
    {
        let r = DocumentBuilder {
            decl: None,
            doc_type: None,
            nodes: Vec::new(),
            root: None,
            open: Vec::new(),
        };
        assert(r@.nodes == Seq::<NodeModel>::empty());
        assert(r@.open == Seq::<OpenTag>::empty());
        r
    }

    /// The innermost open element.
    fn current_parent(&self) -> (r: Option<NodeId>)
        ensures
            id_model(r) == current_parent(self@),
    {
        let n = self.open.len();
        if n == 0 {
            None
        } else {
            Some(self.open[n - 1].id)
        }
    }

    /// Allocates the next node, links it under the innermost open element,
    /// and returns its identifier.
    fn push_node(&mut self, node: Node) -> (r: NodeId)
        requires
            node@.parent() == current_parent(old(self)@),
        ensures
            r == old(self)@.nodes.len(),
            final(self)@ == allocate(old(self)@, node@),
    {
        let parent = self.current_parent();
        let id = self.nodes.len();
        self.attach(parent, id);
        let ghost before = self.nodes@;
        self.nodes.push(node);
        assert(nodes_model(self.nodes@) =~= nodes_model(before).push(node@));
        id
    }

    /// A comment, processing instruction, text or CDATA section.
    fn add_leaf(&mut self, kind: Payload, bytes: &[u8]) -> (r: Result<(), Error>)
        requires
            is_leaf_payload(kind),
        ensures
            step_outcome(old(self)@, final(self)@, r, add_leaf_model(old(self)@, kind, bytes@)),
    {
        let data = match decode_text(bytes) {
            Ok(s) => s,
            Err(e) => {
                return Err(Error::Decode(DecodeError { payload: kind, source: e }));
            },
        };
        let parent = self.current_parent();
        let node = match kind {
            Payload::CData => Node::CData(CData { parent, data }),
            Payload::Comment => Node::Comment(Comment { parent, data }),
            Payload::ProcessingInstruction => Node::ProcessingInstruction(
                ProcessingInstruction { parent, data },
            ),
            _ => Node::Text(Text { parent, data }),
        };
        assert(node@ == leaf_node(kind, current_parent(self@), data@));
        self.push_node(node);
        Ok(())
    }

    /// A start tag (`stays_open`) or an empty-element tag.
    fn open_element(&mut self, tag: &RawTag, stays_open: bool) -> (r: Result<(), Error>)
        ensures
            step_outcome(
                old(self)@,
                final(self)@,
                r,
                open_element_model(old(self)@, tag@, stays_open),
            ),
    {
        let name = match decode_text(tag.name.as_slice()) {
            Ok(s) => s,
            Err(e) => {
                return Err(Error::Decode(DecodeError { payload: Payload::TagName, source: e }));
            },
        };
        let attributes = match decode_attributes(&tag.attributes) {
            Ok(a) => a,
            Err(e) => {
                return Err(e);
            },
        };
        if has_duplicate(&tag.attributes) {
            return Err(Error::DuplicateAttribute);
        }
        let parent = self.current_parent();
        if parent.is_none() && self.root.is_some() {
            return Err(Error::MultipleRoots);
        }
        let element = Element { parent, name, attributes, children: Vec::new() };
        assert(ids_model(element.children@) =~= Seq::<nat>::empty());
        let id = self.push_node(Node::Element(element));
        if parent.is_none() {
            self.root = Some(id);
        }
        if stays_open {
            let name = tag.name.clone();
            let ghost before = self.open@;
            self.open.push(OpenElement { id, name });
            assert(self.open@.map_values(|o: OpenElement| o@) =~= before.map_values(
                |o: OpenElement| o@,
            ).push(OpenTag { id: id as nat, name: tag.name@ }));
        }
        Ok(())
    }

    /// An end tag: it closes the innermost open element, which must carry
    /// the same name.
    fn close_element(&mut self, name: &[u8]) -> (r: Result<(), Error>)
        ensures
            step_outcome(old(self)@, final(self)@, r, close_element_model(old(self)@, name@)),
    {
        let n = self.open.len();
        if n == 0 {
            return Err(Error::MismatchedTag);
        }
        if !same_bytes(self.open[n - 1].name.as_slice(), name) {
            return Err(Error::MismatchedTag);
        }
        let ghost before = self.open@;
        self.open.pop();
        assert(self.open@.map_values(|o: OpenElement| o@) =~= before.map_values(
            |o: OpenElement| o@,
        ).drop_last());
        Ok(())
    }

    /// Records the XML declaration; legal once, before the first element.
    pub fn set_decl(&mut self, bytes: &[u8]) -> (r: Result<(), Error>)
        ensures
            step_outcome(old(self)@, final(self)@, r, set_decl_model(old(self)@, bytes@)),
    {
        if self.root.is_some() || self.decl.is_some() {
            return Err(Error::MisplacedDecl);
        }
        match decode_text(bytes) {
            Ok(s) => {
                self.decl = Some(DocDecl(s));
                Ok(())
            },
            Err(e) => Err(Error::Decode(DecodeError { payload: Payload::Declaration, source: e })),
        }
    }

    /// Records the document type; legal once, before the first element.
    pub fn set_doctype(&mut self, bytes: &[u8]) -> (r: Result<(), Error>)
        ensures
            step_outcome(old(self)@, final(self)@, r, set_doctype_model(old(self)@, bytes@)),
    {
        if self.root.is_some() || self.doc_type.is_some() {
            return Err(Error::MisplacedDocType);
        }
        match decode_text(bytes) {
            Ok(s) => {
                self.doc_type = Some(DocType(s));
                Ok(())
            },
            Err(e) => Err(Error::Decode(DecodeError { payload: Payload::DocType, source: e })),
        }
    }

    /// Consumes one event. `Eof` changes nothing: [`DocumentBuilder::build`]
    /// ends the input.
    pub fn handle(&mut self, event: &XmlEvent) -> (r: Result<(), Error>)
        ensures
            step_outcome(old(self)@, final(self)@, r, step(old(self)@, event@)),
    {
        match event {
            XmlEvent::Decl(b) => self.set_decl(b.as_slice()),
            XmlEvent::DocType(b) => self.set_doctype(b.as_slice()),
            XmlEvent::Comment(b) => self.add_leaf(Payload::Comment, b.as_slice()),
            XmlEvent::ProcessingInstruction(b) => self.add_leaf(
                Payload::ProcessingInstruction,
                b.as_slice(),
            ),
            XmlEvent::Text(b) => self.add_leaf(Payload::Text, b.as_slice()),
            XmlEvent::CData(b) => self.add_leaf(Payload::CData, b.as_slice()),
            XmlEvent::Start(t) => self.open_element(t, true),
            XmlEvent::Empty(t) => self.open_element(t, false),
            XmlEvent::End(n) => self.close_element(n.as_slice()),
            XmlEvent::Eof => Ok(()),
        }
    }

    /// Ends the input: fails if an element is still open, else yields the
    /// document.
    pub fn build(self) -> (r: Result<Document, Error>)
        ensures
            document_outcome(r, finish_model(self@)),
            r matches Ok(doc) ==> (doc@.nodes.len() > 0 ==> doc@.root is Some),
    {
        if self.open.len() > 0 {
            return Err(Error::UnclosedElement);
        }
        if self.nodes.len() > 0 && self.root.is_none() {
            return Err(Error::NoRootElement);
        }
        let decl = match self.decl {
            Some(d) => d,
            None => DocDecl(String::new()),
        };
        let doc_type = match self.doc_type {
            Some(d) => d,
            None => DocType(String::new()),
        };
        Ok(Document { decl, doc_type, nodes: self.nodes, root: self.root })
    }

    /// Appends `child` to the children of `parent`, where that names an element.
    fn attach(&mut self, parent: Option<NodeId>, child: NodeId)
        ensures
            final(self)@ == (BuilderModel {
                nodes: with_child(old(self)@.nodes, id_model(parent), child as nat),
                ..old(self)@
            }),
    {
        if let Some(p) = parent {
            if p < self.nodes.len() {
                let ghost before = self.nodes@;
                match &mut self.nodes[p] {
                    Node::Element(e) => {
                        e.children.push(child);
                    },
                    _ => {},
                }
                proof {
                    let after = self.nodes@;
                    assert(nodes_model(after) =~= nodes_model(before).update(
                        p as int,
                        after[p as int]@,
                    ));
                    if let Node::Element(e0) = before[p as int] {
                        assert(ids_model(e0.children@.push(child)) =~= ids_model(
                            e0.children@,
                        ).push(child as nat));
                        assert(after[p as int] matches Node::Element(e1) && e1.children@ == e0.children@.push(child));
                        assert(nodes_model(before)[p as int] == before[p as int]@);
                        assert(nodes_model(after) == with_child(nodes_model(before), Some(p as nat), child as nat));
                    } else {
                        assert(after == before);
                    }
                }
            }
        }
    }
}

impl DocumentBuilder {
    /// Consumes `events` in order up to the first `Eof`, or to their end,
    /// stopping at the first one that is rejected.
    pub fn handle_all(&mut self, events: &[XmlEvent]) -> (r: Result<(), Error>)
        ensures
            match run_steps(old(self)@, events_model(events@)) {
                Ok(t) => r is Ok && final(self)@ == t,
                Err(k) => r matches Err(e) && e.kind_spec() == k,
            },
    {
        let ghost all = events_model(events@);
        let ghost start = self@;
        let mut i: usize = 0;
        assert(all.subrange(0, all.len() as int) == all);
        while i < events.len()
            invariant
                all == events_model(events@),
                start == old(self)@,
                0 <= i <= events@.len(),
                run_steps(start, all) == run_steps(self@, all.subrange(i as int, all.len() as int)),
            ensures
                start == old(self)@,
                0 <= i <= events@.len(),
                i < events@.len() ==> all[i as int] is Eof,
                run_steps(start, all) == run_steps(self@, all.subrange(i as int, all.len() as int)),
            decreases events@.len() - i,
        {
            let ghost rest = all.subrange(i as int, all.len() as int);
            assert(rest[0] == events@[i as int]@);
            if let XmlEvent::Eof = events[i] {
                break;
            }
            let ghost before = self@;
            match self.handle(&events[i]) {
                Ok(()) => {},
                Err(e) => {
                    assert(run_steps(before, rest) == Err::<BuilderModel, ErrorKind>(
                        e.kind_spec(),
                    ));
                    return Err(e);
                },
            }
            assert(rest.drop_first() == all.subrange(i + 1, all.len() as int));
            i = i + 1;
        }
        assert(all.subrange(i as int, all.len() as int).len() == 0 || all.subrange(
            i as int,
            all.len() as int,
        )[0] is Eof);
        Ok(())
    }
}

/// Builds the document that `events` describe. Building stops at the first
/// `Eof`; the end of `events` counts as one.
pub fn build_document(events: &[XmlEvent]) -> (r: Result<Document, Error>)
    ensures
        document_outcome(r, build_model(events_model(events@))),
        r matches Ok(doc) ==> (doc@.nodes.len() > 0 ==> doc@.root is Some),
{
    let mut builder = DocumentBuilder::new();
    proof {
        lemma_run_from_steps(builder@, events_model(events@));
    }
    match builder.handle_all(events) {
        Ok(()) => builder.build(),
        Err(e) => Err(e),
    }
}

} // verus!
