use crate::relaxng::{DatatypeLibrary, NCName, Namespace};
use vstd::prelude::*;

verus! {

/// A `ref` to a named definition.
#[derive(Debug, PartialEq)]
pub struct Ref {
    pub ns: Namespace,
    pub datatype_library: DatatypeLibrary,
    pub name: NCName,
}

} // verus!
