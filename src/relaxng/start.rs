use crate::relaxng::pattern::Pattern;
use crate::relaxng::{Combine, DatatypeLibrary, Namespace};
use vstd::prelude::*;

verus! {

/// The `start` of a grammar.
#[derive(Debug, PartialEq)]
pub struct Start {
    pub ns: Namespace,
    pub datatype_library: DatatypeLibrary,
    pub combine: Option<Combine>,
    pub content: Option<Vec<Pattern>>,
}

} // verus!
