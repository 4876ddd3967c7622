//! The lexical events that a document is built from, with raw byte payloads.

use vstd::prelude::*;

verus! {

/// An attribute of a start tag: its local name (the part after any prefix)
/// and its value, both as undecoded bytes.
#[derive(Clone, Debug, PartialEq, Eq)]
pub struct RawAttribute {
    pub local_name: Vec<u8>,
    pub value: Vec<u8>,
}

/// A start or empty-element tag: its name and its attributes in source order.
#[derive(Clone, Debug, PartialEq, Eq)]
pub struct RawTag {
    pub name: Vec<u8>,
    pub attributes: Vec<RawAttribute>,
}

/// One lexical event.
#[derive(Clone, Debug, PartialEq, Eq)]
pub enum XmlEvent {
    Decl(Vec<u8>),
    DocType(Vec<u8>),
    Comment(Vec<u8>),
    ProcessingInstruction(Vec<u8>),
    Text(Vec<u8>),
    CData(Vec<u8>),
    Start(RawTag),
    Empty(RawTag),
    End(Vec<u8>),
    Eof,
}

pub struct RawAttributeModel {
    pub local_name: Seq<u8>,
    pub value: Seq<u8>,
}

pub struct RawTagModel {
    pub name: Seq<u8>,
    pub attributes: Seq<RawAttributeModel>,
}

/// An event as the contracts see it.
pub enum EventModel {
    Decl(Seq<u8>),
    DocType(Seq<u8>),
    Comment(Seq<u8>),
    ProcessingInstruction(Seq<u8>),
    Text(Seq<u8>),
    CData(Seq<u8>),
    Start(RawTagModel),
    Empty(RawTagModel),
    End(Seq<u8>),
    Eof,
}

impl View for RawAttribute {
    type V = RawAttributeModel;

    open spec fn view(&self) -> RawAttributeModel {
        RawAttributeModel { local_name: self.local_name@, value: self.value@ }
    }
}

impl View for RawTag {
    type V = RawTagModel;

    open spec fn view(&self) -> RawTagModel {
        RawTagModel {
            name: self.name@,
            attributes: self.attributes@.map_values(|a: RawAttribute| a@),
        }
    }
}

impl View for XmlEvent {
    type V = EventModel;

    open spec fn view(&self) -> EventModel {
        match self {
            XmlEvent::Decl(b) => EventModel::Decl(b@),
            XmlEvent::DocType(b) => EventModel::DocType(b@),
            XmlEvent::Comment(b) => EventModel::Comment(b@),
            XmlEvent::ProcessingInstruction(b) => EventModel::ProcessingInstruction(b@),
            XmlEvent::Text(b) => EventModel::Text(b@),
            XmlEvent::CData(b) => EventModel::CData(b@),
            XmlEvent::Start(t) => EventModel::Start(t@),
            XmlEvent::Empty(t) => EventModel::Empty(t@),
            XmlEvent::End(b) => EventModel::End(b@),
            XmlEvent::Eof => EventModel::Eof,
        }
    }
}

pub open spec fn events_model(events: Seq<XmlEvent>) -> Seq<EventModel> {
    events.map_values(|e: XmlEvent| e@)
}

} // verus!
