//! Why a build fails.

use quick_xml::errors::Error as QuickXmlError;
use vstd::prelude::*;

verus! {

/// Declares std's UTF-8 error to the verifier; its contents stay opaque.
#[verifier::external_type_specification]
#[verifier::external_body]
pub struct ExUtf8Error(std::str::Utf8Error);

/// Declares quick-xml's error to the verifier; its contents stay opaque.
#[verifier::external_type_specification]
#[verifier::external_body]
pub struct ExQuickXmlError(QuickXmlError);

/// Which payload of an event failed to decode.
#[derive(Clone, Copy, Debug, PartialEq, Eq, Structural)]
pub enum Payload {
    Declaration,
    DocType,
    Comment,
    ProcessingInstruction,
    Text,
    CData,
    TagName,
    AttributeName,
    AttributeValue,
}

/// A payload that is not valid UTF-8; `source` tells how far it was valid.
#[derive(Debug)]
pub struct DecodeError {
    pub payload: Payload,
    pub source: std::str::Utf8Error,
}

/// Every way a build can fail. Each failure aborts the whole build.
#[derive(Debug)]
pub enum Error {
    /// The event source found malformed markup.
    Lex(QuickXmlError),
    /// A payload is not valid UTF-8.
    Decode(DecodeError),
    /// An end tag with no open element, or one that names another element
    /// than the innermost open one.
    MismatchedTag,
    /// The input ended while an element was still open.
    UnclosedElement,
    /// A declaration after the first element was opened, or a second one.
    MisplacedDecl,
    /// A document type after the first element was opened, or a second one.
    MisplacedDocType,
    /// Two attributes of one element share a local name.
    DuplicateAttribute,
    /// An element at the top level after the root element.
    MultipleRoots,
    /// The input ended with nodes but no element.
    NoRootElement,
}

/// The kind of an [`Error`], without the data it carries.
#[derive(Clone, Copy, Debug, PartialEq, Eq, Structural)]
pub enum ErrorKind {
    Lex,
    Decode(Payload),
    MismatchedTag,
    UnclosedElement,
    MisplacedDecl,
    MisplacedDocType,
    DuplicateAttribute,
    MultipleRoots,
    NoRootElement,
}

impl From<QuickXmlError> for Error {
    fn from(e: QuickXmlError) -> (r: Error) {
        Error::Lex(e)
    }
}

impl vstd::std_specs::convert::FromSpecImpl<QuickXmlError> for Error {
    open spec fn obeys_from_spec() -> bool {
        true
    }

    open spec fn from_spec(e: QuickXmlError) -> Error {
        Error::Lex(e)
    }
}

impl Error {
    pub open spec fn kind_spec(&self) -> ErrorKind {
        match self {
            Error::Lex(_) => ErrorKind::Lex,
            Error::Decode(d) => ErrorKind::Decode(d.payload),
            Error::MismatchedTag => ErrorKind::MismatchedTag,
            Error::UnclosedElement => ErrorKind::UnclosedElement,
            Error::MisplacedDecl => ErrorKind::MisplacedDecl,
            Error::MisplacedDocType => ErrorKind::MisplacedDocType,
            Error::DuplicateAttribute => ErrorKind::DuplicateAttribute,
            Error::MultipleRoots => ErrorKind::MultipleRoots,
            Error::NoRootElement => ErrorKind::NoRootElement,
        }
    }

    pub fn kind(&self) -> (r: ErrorKind)
        ensures
            r == self.kind_spec(),
    {
        match self {
            Error::Lex(_) => ErrorKind::Lex,
            Error::Decode(d) => ErrorKind::Decode(d.payload),
            Error::MismatchedTag => ErrorKind::MismatchedTag,
            Error::UnclosedElement => ErrorKind::UnclosedElement,
            Error::MisplacedDecl => ErrorKind::MisplacedDecl,
            Error::MisplacedDocType => ErrorKind::MisplacedDocType,
            Error::DuplicateAttribute => ErrorKind::DuplicateAttribute,
            Error::MultipleRoots => ErrorKind::MultipleRoots,
            Error::NoRootElement => ErrorKind::NoRootElement,
        }
    }
}

} // verus!
