use crate::relaxng::pattern::Pattern;
use crate::relaxng::{DatatypeLibrary, Namespace};
use vstd::prelude::*;

verus! {

/// A `div`: groups grammar content without changing its meaning.
#[derive(Debug, PartialEq)]
pub struct Div {
    pub ns: Namespace,
    pub datatype_library: DatatypeLibrary,
    pub content: Option<Vec<Pattern>>,
}

} // verus!
