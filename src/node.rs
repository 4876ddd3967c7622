//! The document tree: a flat table of nodes addressed by [`NodeId`].

use vstd::prelude::*;

verus! {

/// A handle into one document's node table: the position at which the node
/// was allocated.
pub type NodeId = usize;

/// The text of the XML declaration, `xml version="1.0"` for `<?xml version="1.0"?>`.
#[derive(Clone, Debug, PartialEq, Eq)]
pub struct DocDecl(pub String);

/// The text of the document type declaration.
#[derive(Clone, Debug, PartialEq, Eq)]
pub struct DocType(pub String);

/// An attribute of an element, as written in the source.
#[derive(Clone, Debug, PartialEq, Eq)]
pub struct Attribute {
    pub local_name: String,
    pub value: String,
}

#[derive(Clone, Debug, PartialEq, Eq)]
pub struct CData {
    pub parent: Option<NodeId>,
    pub data: String,
}

#[derive(Clone, Debug, PartialEq, Eq)]
pub struct Comment {
    pub parent: Option<NodeId>,
    pub data: String,
}

#[derive(Clone, Debug, PartialEq, Eq)]
pub struct Element {
    pub parent: Option<NodeId>,
    /// The tag name as written in the start tag.
    pub name: String,
    /// The attributes in document order.
    pub attributes: Vec<Attribute>,
    /// The child nodes in document order.
    pub children: Vec<NodeId>,
}

#[derive(Clone, Debug, PartialEq, Eq)]
pub struct ProcessingInstruction {
    pub parent: Option<NodeId>,
    pub data: String,
}

#[derive(Clone, Debug, PartialEq, Eq)]
pub struct Text {
    pub parent: Option<NodeId>,
    pub data: String,
}

#[derive(Clone, Debug, PartialEq, Eq)]
pub enum Node {
    CData(CData),
    Comment(Comment),
    Element(Element),
    ProcessingInstruction(ProcessingInstruction),
    Text(Text),
}

/// An attribute as the contracts see it.
pub struct AttributeModel {
    pub local_name: Seq<char>,
    pub value: Seq<char>,
}

/// A node as the contracts see it; identifiers are natural numbers.
pub enum NodeModel {
    CData { parent: Option<nat>, data: Seq<char> },
    Comment { parent: Option<nat>, data: Seq<char> },
    Element {
        parent: Option<nat>,
        name: Seq<char>,
        attributes: Seq<AttributeModel>,
        children: Seq<nat>,
    },
    ProcessingInstruction { parent: Option<nat>, data: Seq<char> },
    Text { parent: Option<nat>, data: Seq<char> },
}

impl NodeModel {
    pub open spec fn parent(self) -> Option<nat> {
        match self {
            NodeModel::CData { parent, .. } => parent,
            NodeModel::Comment { parent, .. } => parent,
            NodeModel::Element { parent, .. } => parent,
            NodeModel::ProcessingInstruction { parent, .. } => parent,
            NodeModel::Text { parent, .. } => parent,
        }
    }

    pub open spec fn children(self) -> Seq<nat> {
        match self {
            NodeModel::Element { children, .. } => children,
            _ => Seq::empty(),
        }
    }
}

/// The document as the contracts see it.
pub struct DocumentModel {
    pub decl: Seq<char>,
    pub doc_type: Seq<char>,
    pub nodes: Seq<NodeModel>,
    pub root: Option<nat>,
}

pub open spec fn id_model(id: Option<NodeId>) -> Option<nat> {
    match id {
        Some(i) => Some(i as nat),
        None => None,
    }
}

impl View for Attribute {
    type V = AttributeModel;

    open spec fn view(&self) -> AttributeModel {
        AttributeModel { local_name: self.local_name@, value: self.value@ }
    }
}

pub open spec fn attributes_model(attributes: Seq<Attribute>) -> Seq<AttributeModel> {
    attributes.map_values(|a: Attribute| a@)
}

pub open spec fn ids_model(ids: Seq<NodeId>) -> Seq<nat> {
    ids.map_values(|i: NodeId| i as nat)
}

impl View for Node {
    type V = NodeModel;

    open spec fn view(&self) -> NodeModel {
        match self {
            Node::CData(n) => NodeModel::CData { parent: id_model(n.parent), data: n.data@ },
            Node::Comment(n) => NodeModel::Comment { parent: id_model(n.parent), data: n.data@ },
            Node::Element(n) => NodeModel::Element {
                parent: id_model(n.parent),
                name: n.name@,
                attributes: attributes_model(n.attributes@),
                children: ids_model(n.children@),
            },
            Node::ProcessingInstruction(n) => NodeModel::ProcessingInstruction {
                parent: id_model(n.parent),
                data: n.data@,
            },
            Node::Text(n) => NodeModel::Text { parent: id_model(n.parent), data: n.data@ },
        }
    }
}

pub open spec fn nodes_model(nodes: Seq<Node>) -> Seq<NodeModel> {
    nodes.map_values(|n: Node| n@)
}

/// A document: its declarations and the node table, where the node with
/// identifier `i` stands at position `i`.
#[derive(Clone, Debug, PartialEq, Eq)]
pub struct Document {
    pub decl: DocDecl,
    pub doc_type: DocType,
    pub nodes: Vec<Node>,
    pub root: Option<NodeId>,
}

impl View for Document {
    type V = DocumentModel;

    open spec fn view(&self) -> DocumentModel {
        DocumentModel {
            decl: self.decl.0@,
            doc_type: self.doc_type.0@,
            nodes: nodes_model(self.nodes@),
            root: id_model(self.root),
        }
    }
}

impl Default for DocDecl {
    /// No declaration: the empty text.
    fn default() -> (r: DocDecl)
        ensures
            r.0@ == Seq::<char>::empty(),
    {
        DocDecl(String::new())
    }
}

impl Default for DocType {
    /// No document type: the empty text.
    fn default() -> (r: DocType)
        ensures
            r.0@ == Seq::<char>::empty(),
    {
        DocType(String::new())
    }
}

impl Default for Document {
    /// The document with no declaration, no document type and no nodes.
    fn default() -> (r: Document)
        ensures
            r@ == (DocumentModel {
                decl: Seq::empty(),
                doc_type: Seq::empty(),
                nodes: Seq::empty(),
                root: None,
            }),
    {
        let r = Document {
            decl: DocDecl::default(),
            doc_type: DocType::default(),
            nodes: Vec::new(),
            root: None,
        };
        assert(r@.nodes == Seq::<NodeModel>::empty());
        r
    }
}

impl Node {
    /// The element that contains this node, or `None` at the top level.
    pub fn parent(&self) -> (r: Option<NodeId>)
        ensures
            id_model(r) == self@.parent(),
    {
        match self {
            Node::CData(n) => n.parent,
            Node::Comment(n) => n.parent,
            Node::Element(n) => n.parent,
            Node::ProcessingInstruction(n) => n.parent,
            Node::Text(n) => n.parent,
        }
    }

    /// The children of an element in document order; other nodes have none.
    pub fn children(&self) -> (r: &[NodeId])
        ensures
            ids_model(r@) == self@.children(),
    {
        match self {
            Node::Element(n) => n.children.as_slice(),
            _ => {
                let r: &[NodeId] = &[];
                assert(ids_model(r@) =~= Seq::<nat>::empty());
                r
            },
        }
    }
}

impl Document {
    /// The node with identifier `id`, if there is one.
    pub fn get(&self, id: NodeId) -> (r: Option<&Node>)
        ensures
            match r {
                Some(n) => id < self@.nodes.len() && n@ == self@.nodes[id as int],
                None => id >= self@.nodes.len(),
            },
    {
        if id < self.nodes.len() {
            Some(&self.nodes[id])
        } else {
            None
        }
    }

    /// The top-level element, if the document has one.
    pub fn root(&self) -> (r: Option<NodeId>)
        ensures
            id_model(r) == self@.root,
    {
        self.root
    }

    /// The declaration text; empty where the document has none.
    pub fn decl(&self) -> (r: &DocDecl)
        ensures
            r.0@ == self@.decl,
    {
        &self.decl
    }

    /// The document type text; empty where the document has none.
    pub fn doc_type(&self) -> (r: &DocType)
        ensures
            r.0@ == self@.doc_type,
    {
        &self.doc_type
    }

    /// The parent of node `id`; `None` for a top-level node or an unknown id.
    pub fn parent_of(&self, id: NodeId) -> (r: Option<NodeId>)
        ensures
            id < self@.nodes.len() ==> id_model(r) == self@.nodes[id as int].parent(),
            id >= self@.nodes.len() ==> r is None,
    {
        if id < self.nodes.len() {
            self.nodes[id].parent()
        } else {
            None
        }
    }

    /// The children of node `id` in document order; none for a leaf or an
    /// unknown id.
    pub fn children_of(&self, id: NodeId) -> (r: &[NodeId])
        ensures
            id < self@.nodes.len() ==> ids_model(r@) == self@.nodes[id as int].children(),
            id >= self@.nodes.len() ==> r@.len() == 0,
    {
        if id < self.nodes.len() {
            self.nodes[id].children()
        } else {
            &[]
        }
    }
}

} // verus!
