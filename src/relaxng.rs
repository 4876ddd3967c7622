//! Data definitions for the RELAX NG grammar: plain values that a schema
//! processor fills and reads.

pub mod choice;
pub mod define;
pub mod div;
pub mod element;
pub mod grammar;
pub mod inclusion;
pub mod pattern;
pub mod reference;
pub mod start;

use vstd::prelude::*;

verus! {

pub type AnyURI = String;

pub type DatatypeLibrary = Option<AnyURI>;

pub type Namespace = Option<String>;

pub type NCName = String;

pub type QName = String;

/// The `anyName` name class.
#[derive(Debug, PartialEq)]
pub struct AnyName {}

/// How definitions of one name combine.
#[derive(Debug, PartialEq)]
pub enum Combine {
    Choice,
    Interleave,
}

} // verus!
