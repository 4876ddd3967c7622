//! Data definitions for the XML Schema grammar (the schema for schemas):
//! plain values that a schema processor fills and reads.
//!
//! Only the types whose parts are all defined stand here. The particle,
//! complex-type, simple-type, element, group, attribute and schema types are
//! left out: they are built from model groups (`Choice`, `Sequence`,
//! `AllModel`, `SimpleRestrictionModel`, `SimpleDerivation`,
//! `IdentityConstraint`, `Facet`) whose definitions are not available, so
//! their shape is unknown.

use vstd::prelude::*;

verus! {

/// A language tag, as `xml:lang` holds it.
pub type Lang = String;

/// This type is extended by almost all schema types to allow attributes from
/// other namespaces to be added to user schemas.
#[derive(Debug, PartialEq)]
pub struct OpenAttrs {}

/// This type is extended by all types which allow annotation other than
/// `<schema>` itself.
#[derive(Debug, PartialEq)]
pub struct Annotated {
    pub id: Option<String>,
    pub xs_annotation: Annotation,
    pub open_attrs: OpenAttrs,
}

/// A utility type, not for public use.
#[derive(Debug, PartialEq)]
pub struct FormChoice {
    pub form_choice: String,
}

/// A utility type, not for public use.
#[derive(Debug, PartialEq)]
pub struct ReducedDerivationControl {
    pub reduced_derivation_control: String,
}

/// `#all` or (possibly empty) subset of {extension, restriction}.
#[derive(Debug, PartialEq)]
pub struct DerivationSet {
    pub derivation_set: Vec<String>,
}

/// A utility type, not for public use.
#[derive(Debug, PartialEq)]
pub struct TypeDerivationControl {
    pub type_derivation_control: String,
}

/// `#all` or (possibly empty) subset of {extension, restriction, list, union}.
#[derive(Debug, PartialEq)]
pub struct FullDerivationSet {
    pub full_derivation_set: Vec<String>,
}

#[derive(Debug, PartialEq)]
pub struct AllNNI {
    pub non_negative_integer: u32,
}

/// For all particles.
#[derive(Debug, PartialEq)]
pub struct Occurs {
    pub min_occurs: Option<u32>,
    pub max_occurs: Option<AllNNI>,
}

/// For element, group and attributeGroup, which both define and reference.
#[derive(Debug, PartialEq)]
pub struct DefRef {
    pub name: Option<String>,
    pub ref_attr: Option<String>,
}

#[derive(Debug, PartialEq)]
pub struct AnyAttribute {
    pub not_q_name: Option<QnameListA>,
    pub wildcard: Wildcard,
}

#[derive(Debug, PartialEq)]
pub struct Assertions {
    pub assert: Assertion,
}

#[derive(Debug, PartialEq)]
pub struct Assertion {
    pub test: Option<String>,
    pub xpath_default_namespace: Option<XpathDefaultNamespace>,
    pub annotated: Annotated,
}

#[derive(Debug, PartialEq)]
pub struct OpenContent {
    pub mode: Option<String>,
    pub open_content: String,
    pub annotated: Annotated,
}

#[derive(Debug, PartialEq)]
pub struct DefaultOpenContent {
    pub applies_to_empty: Option<bool>,
    pub mode: Option<String>,
    pub default_open_content: String,
    pub annotated: Annotated,
}

/// `#all` or (possibly empty) subset of {substitution, extension, restriction}.
#[derive(Debug, PartialEq)]
pub struct BlockSet {
    pub block_set: Vec<String>,
}

#[derive(Debug, PartialEq)]
pub struct GroupRef {
    pub ref_attr: String,
    pub name: Option<char>,
    pub xs_annotation: Annotation,
}

#[derive(Debug, PartialEq)]
pub struct AnyAttrGroup {
    pub namespace: Option<NamespaceList>,
    pub not_namespace: Option<BasicNamespaceList>,
    pub process_contents: Option<String>,
}

#[derive(Debug, PartialEq)]
pub struct Wildcard {
    pub xs_any_attr_group: Vec<AnyAttrGroup>,
    pub annotated: Annotated,
}

#[derive(Debug, PartialEq)]
pub struct Any {
    pub xs_occurs: Vec<Occurs>,
    pub not_q_name: Option<QnameList>,
    pub wildcard: Wildcard,
}

#[derive(Debug, PartialEq)]
pub struct NamespaceList {
    pub basic_namespace_list: BasicNamespaceList,
    pub special_namespace_list: SpecialNamespaceList,
}

/// A utility type, not for public use.
#[derive(Debug, PartialEq)]
pub struct BasicNamespaceList {
    pub basic_namespace_list: Vec<String>,
}

/// A utility type, not for public use.
#[derive(Debug, PartialEq)]
pub struct SpecialNamespaceList {
    pub special_namespace_list: String,
}

/// A utility type, not for public use.
#[derive(Debug, PartialEq)]
pub struct QnameList {
    pub qname_list: Vec<String>,
}

/// A utility type, not for public use.
#[derive(Debug, PartialEq)]
pub struct QnameListA {
    pub qname_list_a: Vec<String>,
}

#[derive(Debug, PartialEq)]
pub struct XpathDefaultNamespace {
    pub any_uri: String,
}

#[derive(Debug, PartialEq)]
pub struct AttributeGroupRef {
    pub ref_attr: String,
    pub name: Option<char>,
    pub xs_annotation: Annotation,
}

#[derive(Debug, PartialEq)]
pub struct Include {
    pub schema_location: String,
    pub annotated: Annotated,
}

#[derive(Debug, PartialEq)]
pub struct Import {
    pub namespace: Option<String>,
    pub schema_location: Option<String>,
    pub annotated: Annotated,
}

#[derive(Debug, PartialEq)]
pub struct Selector {
    pub xpath: String,
    pub xpath_default_namespace: Option<XpathDefaultNamespace>,
    pub annotated: Annotated,
}

#[derive(Debug, PartialEq)]
pub struct Field {
    pub xpath: String,
    pub xpath_default_namespace: Option<XpathDefaultNamespace>,
    pub annotated: Annotated,
}

#[derive(Debug, PartialEq)]
pub struct Keybase {
    pub name: Option<String>,
    pub ref_attr: Option<String>,
    pub xs_selector: Selector,
    pub xs_field: Vec<Field>,
    pub annotated: Annotated,
}

#[derive(Debug, PartialEq)]
pub struct Keyref {
    pub refer: Option<String>,
    pub keybase: Keybase,
}

#[derive(Debug, PartialEq)]
pub struct Notation {
    pub name: String,
    pub public: Option<String>,
    pub system: Option<String>,
    pub annotated: Annotated,
}

/// A public identifier, per ISO 8879.
#[derive(Debug, PartialEq)]
pub struct Public {
    pub public: String,
}

#[derive(Debug, PartialEq)]
pub struct Appinfo {
    pub source: Option<String>,
}

#[derive(Debug, PartialEq)]
pub struct Documentation {
    pub source: Option<String>,
    pub xml_lang: Option<Lang>,
}

#[derive(Debug, PartialEq)]
pub struct Annotation {
    pub id: Option<String>,
    pub xs_appinfo: Vec<Appinfo>,
    pub xs_documentation: Vec<Documentation>,
    pub open_attrs: OpenAttrs,
}

/// Not the real urType, but as close an approximation as we can get in the XML
/// representation.
#[derive(Debug, PartialEq)]
pub struct AnyType {}

/// A utility type, not for public use.
#[derive(Debug, PartialEq)]
pub struct DerivationControl {
    pub derivation_control: String,
}

/// A utility type, not for public use.
#[derive(Debug, PartialEq)]
pub struct SimpleDerivationSet {
    pub simple_derivation_set: Vec<String>,
}

#[derive(Debug, PartialEq)]
pub struct NoFixedFacet {
    pub fixed: Option<char>,
    pub xs_annotation: Annotation,
}

#[derive(Debug, PartialEq)]
pub struct NumFacet {
    pub value: u32,
    pub xs_annotation: Annotation,
}

#[derive(Debug, PartialEq)]
pub struct IntFacet {
    pub value: i32,
    pub xs_annotation: Annotation,
}

#[derive(Debug, PartialEq)]
pub struct TotalDigits {
    pub value: u32,
    pub xs_annotation: Annotation,
}

#[derive(Debug, PartialEq)]
pub struct WhiteSpace {
    pub value: String,
    pub xs_annotation: Annotation,
}

#[derive(Debug, PartialEq)]
pub struct Pattern {
    pub value: String,
    pub xs_annotation: Annotation,
}

#[derive(Debug, PartialEq)]
pub struct ExplicitTimezone {
    pub value: String,
    pub xs_annotation: Annotation,
}

} // verus!
