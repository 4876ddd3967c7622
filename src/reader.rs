//! Building a document from XML text, with quick-xml as the event source.

use crate::builder::{document_outcome, DocumentBuilder};
use crate::error::Error;
use crate::event::{events_model, EventModel, RawAttribute, RawTag, XmlEvent};
use crate::model::{build_model, initial_model, lemma_run_from_steps, run_steps};
use crate::node::Document;
use quick_xml::errors::Error as QuickXmlError;
use quick_xml::events::attributes::Attribute as QuickAttribute;
use quick_xml::events::{BytesCData, BytesDecl, BytesEnd, BytesPI, BytesStart, BytesText, Event};
use quick_xml::reader::Reader;
use vstd::prelude::*;

verus! {

/// Declares quick-xml's pull reader; its state stays opaque.
#[verifier::external_type_specification]
#[verifier::external_body]
#[verifier::reject_recursive_types(R)]
pub struct ExReader<R>(Reader<R>);

/// Declares quick-xml's event enum, whose variants the verified code tells apart.
#[verifier::external_type_specification]
pub struct ExEvent<'a>(Event<'a>);

#[verifier::external_type_specification]
#[verifier::external_body]
pub struct ExBytesStart<'a>(BytesStart<'a>);

#[verifier::external_type_specification]
#[verifier::external_body]
pub struct ExBytesEnd<'a>(BytesEnd<'a>);

#[verifier::external_type_specification]
#[verifier::external_body]
pub struct ExBytesText<'a>(BytesText<'a>);

#[verifier::external_type_specification]
#[verifier::external_body]
pub struct ExBytesCData<'a>(BytesCData<'a>);

#[verifier::external_type_specification]
#[verifier::external_body]
pub struct ExBytesDecl<'a>(BytesDecl<'a>);

#[verifier::external_type_specification]
#[verifier::external_body]
pub struct ExBytesPI<'a>(BytesPI<'a>);

#[verifier::external_type_specification]
#[verifier::external_body]
pub struct ExQuickAttribute<'a>(QuickAttribute<'a>);

/// Relies on BytesStart::name: the tag name as written.
#[verifier::external_body]
fn start_name(tag: &BytesStart) -> Vec<u8> {
    tag.name().as_ref().to_vec()
}

/// Relies on BytesStart::attributes: the attributes in source order, with
/// quick-xml's duplicate check off, since the builder makes that check.
#[verifier::external_body]
fn start_attributes<'b>(tag: &'b BytesStart) -> Result<Vec<QuickAttribute<'b>>, QuickXmlError> {
    let mut attributes = tag.attributes();
    attributes.with_checks(false);
    attributes.collect::<Result<Vec<_>, _>>().map_err(QuickXmlError::InvalidAttr)
}

/// Relies on QName::local_name and the attribute's raw value.
#[verifier::external_body]
fn raw_attribute(attribute: &QuickAttribute) -> RawAttribute {
    RawAttribute {
        local_name: attribute.key.local_name().as_ref().to_vec(),
        value: attribute.value.to_vec(),
    }
}

/// Relies on BytesEnd's dereference to the name of the end tag.
#[verifier::external_body]
fn end_name(tag: &BytesEnd) -> Vec<u8> {
    tag.to_vec()
}

/// Relies on BytesText's dereference to its raw content.
#[verifier::external_body]
fn text_bytes(text: &BytesText) -> Vec<u8> {
    text.to_vec()
}

/// Relies on BytesCData's dereference to its raw content.
#[verifier::external_body]
fn cdata_bytes(data: &BytesCData) -> Vec<u8> {
    data.to_vec()
}

/// Relies on BytesDecl's dereference to the text between `<?` and `?>`.
#[verifier::external_body]
fn decl_bytes(decl: &BytesDecl) -> Vec<u8> {
    decl.to_vec()
}

/// Relies on BytesPI's dereference to the text between `<?` and `?>`.
#[verifier::external_body]
fn pi_bytes(pi: &BytesPI) -> Vec<u8> {
    pi.to_vec()
}

/// The name and attributes of a start or empty-element tag.
fn raw_tag(tag: &BytesStart) -> (r: Result<RawTag, QuickXmlError>) {
    let name = start_name(tag);
    let parsed = match start_attributes(tag) {
        Ok(a) => a,
        Err(e) => {
            return Err(e);
        },
    };
    let mut attributes: Vec<RawAttribute> = Vec::new();
    let mut i: usize = 0;
    while i < parsed.len()
        invariant
            0 <= i <= parsed@.len(),
            attributes@.len() == i,
        decreases parsed@.len() - i,
    {
        attributes.push(raw_attribute(&parsed[i]));
        i = i + 1;
    }
    Ok(RawTag { name, attributes })
}

/// The event that quick-xml reported, with its payload as raw bytes.
fn convert_event(event: Event) -> (r: Result<XmlEvent, QuickXmlError>)
    ensures
        r matches Ok(x) ==> (x is Eof <==> event is Eof),
{
    match event {
        Event::Start(tag) => match raw_tag(&tag) {
            Ok(t) => Ok(XmlEvent::Start(t)),
            Err(e) => Err(e),
        },
        Event::Empty(tag) => match raw_tag(&tag) {
            Ok(t) => Ok(XmlEvent::Empty(t)),
            Err(e) => Err(e),
        },
        Event::End(tag) => Ok(XmlEvent::End(end_name(&tag))),
        Event::Text(text) => Ok(XmlEvent::Text(text_bytes(&text))),
        Event::CData(data) => Ok(XmlEvent::CData(cdata_bytes(&data))),
        Event::Comment(text) => Ok(XmlEvent::Comment(text_bytes(&text))),
        Event::Decl(decl) => Ok(XmlEvent::Decl(decl_bytes(&decl))),
        Event::PI(pi) => Ok(XmlEvent::ProcessingInstruction(pi_bytes(&pi))),
        Event::DocType(text) => Ok(XmlEvent::DocType(text_bytes(&text))),
        Event::Eof => Ok(XmlEvent::Eof),
    }
}

/// What quick-xml reports for the text `xml`: the events before its end or
/// before the first lexical error, and whether there was such an error.
pub uninterp spec fn lexed(xml: Seq<char>) -> (Seq<EventModel>, bool);

/// Relies on quick_xml::Reader::from_str and Reader::read_event, with the
/// reader's own end-tag checks off so that tag matching is the builder's to
/// decide: the events that quick-xml reports for `xml`, up to its end or to
/// its first lexical error, which comes with them. Payloads are taken as raw
/// bytes by `convert_event`, through the accessors above. What comes back
/// depends on `xml` alone.
#[verifier::external_body]
fn lex(xml: &str) -> (r: (Vec<XmlEvent>, Option<QuickXmlError>))
    ensures
        (events_model(r.0@), r.1 is Some) == lexed(xml@),
{
    let mut reader = Reader::from_str(xml);
    reader.config_mut().check_end_names = false;
    reader.config_mut().allow_unmatched_ends = true;
    let mut events = Vec::new();
    loop {
        match reader.read_event().and_then(convert_event) {
            Ok(XmlEvent::Eof) => return (events, None),
            Ok(event) => events.push(event),
            Err(e) => return (events, Some(e)),
        }
    }
}

/// What [`deserialize_to_document`] yields for text that quick-xml reads as
/// `events` and then, where `fails`, a lexical error: the first rejection
/// among the events, else the lexical error, else the document.
pub open spec fn parsed_outcome(r: Result<Document, Error>, events: Seq<EventModel>, fails: bool) -> bool {
    if fails {
        match run_steps(initial_model(), events) {
            Err(k) => r matches Err(e) && e.kind_spec() == k,
            Ok(_) => r matches Err(Error::Lex(_)),
        }
    } else {
        document_outcome(r, build_model(events))
    }
}

/// Builds the document from what the lexer reported: `events` in order,
/// then `failure` where the lexer stopped on an error.
pub fn build_from_lexed(events: &[XmlEvent], failure: Option<QuickXmlError>) -> (r: Result<
    Document,
    Error,
>)
    ensures
        parsed_outcome(r, events_model(events@), failure is Some),
{
    let mut builder = DocumentBuilder::new();
    proof {
        lemma_run_from_steps(builder@, events_model(events@));
    }
    match builder.handle_all(events) {
        Err(e) => Err(e),
        Ok(()) => match failure {
            Some(e) => Err(Error::Lex(e)),
            None => builder.build(),
        },
    }
}

/// Parses `xml` and builds its document. Events are handed to the builder in
/// order; a lexical error from quick-xml comes back as [`Error::Lex`] unless
/// an earlier event was already rejected.
pub fn deserialize_to_document(xml: &str) -> (r: Result<Document, Error>)
    ensures
        parsed_outcome(r, lexed(xml@).0, lexed(xml@).1),
{
    let (events, failure) = lex(xml);
    build_from_lexed(events.as_slice(), failure)
}

} // verus!
