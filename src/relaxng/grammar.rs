use crate::relaxng::define::Define;
use crate::relaxng::inclusion::Include;
use crate::relaxng::start::Start;
use crate::relaxng::{DatatypeLibrary, Namespace};
use vstd::prelude::*;

verus! {

/// A `grammar` pattern.
#[derive(Debug, PartialEq)]
pub struct Grammar {
    pub ns: Namespace,
    pub datatype_library: DatatypeLibrary,
    pub content: Option<Vec<GrammarContent>>,
}

/// What a grammar holds.
#[derive(Debug, PartialEq)]
pub enum GrammarContent {
    Define(Define),
    Include(Include),
    Start(Start),
}

} // verus!
