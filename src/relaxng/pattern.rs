use crate::relaxng::choice::Choice;
use crate::relaxng::element::Element;
use crate::relaxng::grammar::Grammar;
use crate::relaxng::reference::Ref;
use vstd::prelude::*;

verus! {

/// A RELAX NG pattern.
#[derive(Debug, PartialEq)]
pub enum Pattern {
    Attribute,
    Choice(Choice),
    Data,
    Element(Element),
    Empty,
    ExternalRef,
    Grammar(Grammar),
    Group,
    List,
    Interleave,
    Mixed,
    NotAllowed,
    OneOrMore,
    Optional,
    ParentRef,
    Ref(Ref),
    Text,
    Value,
    ZeroOrMore,
}

} // verus!
