use crate::relaxng::pattern::Pattern;
use crate::relaxng::{AnyName, DatatypeLibrary, NCName, Namespace};
use vstd::prelude::*;

verus! {

/// An `element` pattern, named by `name` or by `any_name`.
#[derive(Debug, PartialEq)]
pub struct Element {
    pub ns: Namespace,
    pub datatype_library: DatatypeLibrary,
    pub name: Option<NCName>,
    pub any_name: Option<AnyName>,
    pub content: Option<Vec<Pattern>>,
}

} // verus!
