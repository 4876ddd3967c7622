//! The build as a state machine over mathematical values: what every
//! executable step of the builder is held to.

use crate::decode::decoded;
use crate::error::{ErrorKind, Payload};
use crate::event::{EventModel, RawAttributeModel, RawTagModel};
use crate::node::{AttributeModel, DocumentModel, NodeModel};
use vstd::prelude::*;

verus! {

/// An element that is still open: its identifier, and the name that its end
/// tag must carry.
pub struct OpenTag {
    pub id: nat,
    pub name: Seq<u8>,
}

/// The state of a build between two events.
pub struct BuilderModel {
    /// The declaration, once one was seen.
    pub decl: Option<Seq<char>>,
    /// The document type, once one was seen.
    pub doc_type: Option<Seq<char>>,
    pub nodes: Seq<NodeModel>,
    pub root: Option<nat>,
    /// The open elements, outermost first.
    pub open: Seq<OpenTag>,
}

pub open spec fn initial_model() -> BuilderModel {
    BuilderModel { decl: None, doc_type: None, nodes: seq![], root: None, open: seq![] }
}

/// The innermost open element, which parents the next node.
pub open spec fn current_parent(s: BuilderModel) -> Option<nat> {
    if s.open.len() == 0 {
        None
    } else {
        Some(s.open.last().id)
    }
}

/// `nodes` with `child` appended to the children of `parent`, where `parent`
/// names an element.
pub open spec fn with_child(nodes: Seq<NodeModel>, parent: Option<nat>, child: nat) -> Seq<
    NodeModel,
> {
    match parent {
        Some(p) => if p < nodes.len() {
            match nodes[p as int] {
                NodeModel::Element { parent, name, attributes, children } => nodes.update(
                    p as int,
                    NodeModel::Element { parent, name, attributes, children: children.push(child) },
                ),
                _ => nodes,
            }
        } else {
            nodes
        },
        None => nodes,
    }
}

/// Allocates `node` under the next identifier and links it to its parent.
pub open spec fn allocate(s: BuilderModel, node: NodeModel) -> BuilderModel {
    BuilderModel {
        nodes: with_child(s.nodes, current_parent(s), s.nodes.len()).push(node),
        ..s
    }
}

/// The leaf node that an event with the given payload kind makes.
pub open spec fn leaf_node(kind: Payload, parent: Option<nat>, data: Seq<char>) -> NodeModel {
    match kind {
        Payload::CData => NodeModel::CData { parent, data },
        Payload::Comment => NodeModel::Comment { parent, data },
        Payload::ProcessingInstruction => NodeModel::ProcessingInstruction { parent, data },
        _ => NodeModel::Text { parent, data },
    }
}

pub open spec fn is_leaf_payload(kind: Payload) -> bool {
    ||| kind == Payload::CData
    ||| kind == Payload::Comment
    ||| kind == Payload::ProcessingInstruction
    ||| kind == Payload::Text
}

pub open spec fn add_leaf_model(s: BuilderModel, kind: Payload, bytes: Seq<u8>) -> Result<
    BuilderModel,
    ErrorKind,
> {
    match decoded(bytes) {
        None => Err(ErrorKind::Decode(kind)),
        Some(data) => Ok(allocate(s, leaf_node(kind, current_parent(s), data))),
    }
}

/// The attributes decoded in order, or the part of the first one that is
/// not valid UTF-8.
pub open spec fn decoded_attributes(raw: Seq<RawAttributeModel>) -> Result<
    Seq<AttributeModel>,
    Payload,
>
    decreases raw.len(),
{
    if raw.len() == 0 {
        Ok(seq![])
    } else {
        match decoded_attributes(raw.drop_last()) {
            Err(p) => Err(p),
            Ok(prev) => match decoded(raw.last().local_name) {
                None => Err(Payload::AttributeName),
                Some(local_name) => match decoded(raw.last().value) {
                    None => Err(Payload::AttributeValue),
                    Some(value) => Ok(prev.push(AttributeModel { local_name, value })),
                },
            },
        }
    }
}

pub open spec fn has_duplicate_name(raw: Seq<RawAttributeModel>) -> bool {
    exists|i: int, j: int| 0 <= i < j < raw.len() && raw[i].local_name == raw[j].local_name
}

/// A start tag (`stays_open`) or an empty-element tag.
pub open spec fn open_element_model(s: BuilderModel, tag: RawTagModel, stays_open: bool) -> Result<
    BuilderModel,
    ErrorKind,
> {
    match decoded(tag.name) {
        None => Err(ErrorKind::Decode(Payload::TagName)),
        Some(name) => match decoded_attributes(tag.attributes) {
            Err(p) => Err(ErrorKind::Decode(p)),
            Ok(attributes) => if has_duplicate_name(tag.attributes) {
                Err(ErrorKind::DuplicateAttribute)
            } else if s.open.len() == 0 && s.root is Some {
                Err(ErrorKind::MultipleRoots)
            } else {
                let id = s.nodes.len();
                let parent = current_parent(s);
                let t = allocate(
                    s,
                    NodeModel::Element { parent, name, attributes, children: seq![] },
                );
                Ok(
                    BuilderModel {
                        root: if parent is None {
                            Some(id)
                        } else {
                            s.root
                        },
                        open: if stays_open {
                            s.open.push(OpenTag { id, name: tag.name })
                        } else {
                            s.open
                        },
                        ..t
                    },
                )
            },
        },
    }
}

pub open spec fn close_element_model(s: BuilderModel, name: Seq<u8>) -> Result<
    BuilderModel,
    ErrorKind,
> {
    if s.open.len() == 0 || s.open.last().name != name {
        Err(ErrorKind::MismatchedTag)
    } else {
        Ok(BuilderModel { open: s.open.drop_last(), ..s })
    }
}

pub open spec fn set_decl_model(s: BuilderModel, bytes: Seq<u8>) -> Result<
    BuilderModel,
    ErrorKind,
> {
    if s.root is Some || s.decl is Some {
        Err(ErrorKind::MisplacedDecl)
    } else {
        match decoded(bytes) {
            None => Err(ErrorKind::Decode(Payload::Declaration)),
            Some(text) => Ok(BuilderModel { decl: Some(text), ..s }),
        }
    }
}

pub open spec fn set_doctype_model(s: BuilderModel, bytes: Seq<u8>) -> Result<
    BuilderModel,
    ErrorKind,
> {
    if s.root is Some || s.doc_type is Some {
        Err(ErrorKind::MisplacedDocType)
    } else {
        match decoded(bytes) {
            None => Err(ErrorKind::Decode(Payload::DocType)),
            Some(text) => Ok(BuilderModel { doc_type: Some(text), ..s }),
        }
    }
}

/// One event other than the end of input. `Eof` leaves the state as it is:
/// [`run_from`] stops there.
pub open spec fn step(s: BuilderModel, e: EventModel) -> Result<BuilderModel, ErrorKind> {
    match e {
        EventModel::Decl(b) => set_decl_model(s, b),
        EventModel::DocType(b) => set_doctype_model(s, b),
        EventModel::Comment(b) => add_leaf_model(s, Payload::Comment, b),
        EventModel::ProcessingInstruction(b) => add_leaf_model(
            s,
            Payload::ProcessingInstruction,
            b,
        ),
        EventModel::Text(b) => add_leaf_model(s, Payload::Text, b),
        EventModel::CData(b) => add_leaf_model(s, Payload::CData, b),
        EventModel::Start(t) => open_element_model(s, t, true),
        EventModel::Empty(t) => open_element_model(s, t, false),
        EventModel::End(n) => close_element_model(s, n),
        EventModel::Eof => Ok(s),
    }
}

pub open spec fn text_or_empty(t: Option<Seq<char>>) -> Seq<char> {
    match t {
        Some(t) => t,
        None => seq![],
    }
}

/// The end of input: every element must have been closed, and a document
/// with nodes must have a root element.
pub open spec fn finish_model(s: BuilderModel) -> Result<DocumentModel, ErrorKind> {
    if s.open.len() > 0 {
        Err(ErrorKind::UnclosedElement)
    } else if s.nodes.len() > 0 && s.root is None {
        Err(ErrorKind::NoRootElement)
    } else {
        Ok(
            DocumentModel {
                decl: text_or_empty(s.decl),
                doc_type: text_or_empty(s.doc_type),
                nodes: s.nodes,
                root: s.root,
            },
        )
    }
}

/// Consumes `events` from state `s` up to the first `Eof`, or to their end,
/// which counts as one.
pub open spec fn run_from(s: BuilderModel, events: Seq<EventModel>) -> Result<
    DocumentModel,
    ErrorKind,
>
    decreases events.len(),
{
    if events.len() == 0 || events[0] is Eof {
        finish_model(s)
    } else {
        match step(s, events[0]) {
            Err(k) => Err(k),
            Ok(t) => run_from(t, events.drop_first()),
        }
    }
}

/// Consumes `events` from state `s` up to the first `Eof`, or to their end,
/// without ending the input: the state reached, or the first failure.
pub open spec fn run_steps(s: BuilderModel, events: Seq<EventModel>) -> Result<
    BuilderModel,
    ErrorKind,
>
    decreases events.len(),
{
    if events.len() == 0 || events[0] is Eof {
        Ok(s)
    } else {
        match step(s, events[0]) {
            Err(k) => Err(k),
            Ok(t) => run_steps(t, events.drop_first()),
        }
    }
}

/// Ending the input after [`run_steps`] is [`run_from`].
pub proof fn lemma_run_from_steps(s: BuilderModel, events: Seq<EventModel>)
    ensures
        run_from(s, events) == match run_steps(s, events) {
            Err(k) => Err(k),
            Ok(t) => finish_model(t),
        },
    decreases events.len(),
{
    if events.len() > 0 && !(events[0] is Eof) {
        if let Ok(t) = step(s, events[0]) {
            lemma_run_from_steps(t, events.drop_first());
        }
    }
}

/// The document that `events` describe, or the first failure.
pub open spec fn build_model(events: Seq<EventModel>) -> Result<DocumentModel, ErrorKind> {
    run_from(initial_model(), events)
}

} // verus!
