use crate::relaxng::define::Define;
use crate::relaxng::div::Div;
use crate::relaxng::start::Start;
use vstd::prelude::*;

verus! {

/// A reference to another grammar, with content that overrides parts of it.
#[derive(Debug, PartialEq)]
pub struct Include {
    pub content: Option<Vec<IncludeContent>>,
}

/// What such a reference holds.
#[derive(Debug, PartialEq)]
pub enum IncludeContent {
    Define(Define),
    Div(Div),
    Start(Start),
}

} // verus!
