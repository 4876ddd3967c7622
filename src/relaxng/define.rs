use crate::relaxng::pattern::Pattern;
use crate::relaxng::{Combine, DatatypeLibrary, NCName, Namespace};
use vstd::prelude::*;

verus! {

/// A named pattern definition.
#[derive(Debug, PartialEq)]
pub struct Define {
    pub ns: Namespace,
    pub datatype_library: DatatypeLibrary,
    pub combine: Option<Combine>,
    pub name: NCName,
    pub content: Option<Vec<Pattern>>,
}

} // verus!
