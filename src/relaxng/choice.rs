use crate::relaxng::pattern::Pattern;
use crate::relaxng::{DatatypeLibrary, Namespace};
use vstd::prelude::*;

verus! {

/// A `choice` pattern: one of its patterns matches.
#[derive(Debug, PartialEq)]
pub struct Choice {
    pub ns: Namespace,
    pub datatype_library: DatatypeLibrary,
    pub content: Option<Vec<Pattern>>,
}

} // verus!
