//! An arena-backed XML document tree, built in one pass from a stream of
//! lexical events, together with the data models of the RELAX NG and XML
//! Schema grammars.

pub mod builder;
pub mod decode;
pub mod error;
pub mod event;
pub mod laws;
pub mod model;
pub mod node;
pub mod reader;
pub mod relaxng;
pub mod xml_schema;

pub use builder::{build_document, DocumentBuilder};
pub use error::{DecodeError, Error, ErrorKind, Payload};
pub use event::{RawAttribute, RawTag, XmlEvent};
pub use node::{
    Attribute, CData, Comment, DocDecl, DocType, Document, Element, Node, NodeId,
    ProcessingInstruction, Text,
};
pub use reader::{build_from_lexed, deserialize_to_document};
