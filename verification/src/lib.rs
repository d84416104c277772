//! Parsing of CMSIS Pack Description (PDSC) content.
//!
//! The data of a PDSC file is held in plain structs, one module per part of
//! the format. The text that the format leaves to each element (debug
//! variables, debug access statements and expressions, sequences, flash
//! information) is read by verified parsers whose results are stated in
//! their contracts.
#![allow(unused_imports)]

use vstd::prelude::*;

pub mod text;
pub mod number;
pub mod xml;
pub mod debug_access;
pub mod family;
pub mod pdsc;
pub mod requirements;
pub mod generators;
pub mod boards;
pub mod parts;
pub mod taxonomy;
pub mod part_taxonomy;
pub mod apis;
pub mod components;
pub mod conditions;
pub mod csolution;
pub mod examples;

pub use crate::pdsc::Package;

use crate::debug_access::{DebugAccessParseError, DebugErrorModel};
use crate::family::{FamilyErrorModel, FamilyParseError};
use crate::xml::{XmlErrorModel, XmlValueError};

verus! {

/// Why the content of an element could not be read.
#[derive(Debug, PartialEq, Eq, Clone)]
pub enum Error {
    /// A debug access statement or expression is malformed.
    Debug(DebugAccessParseError),
    /// A family element is malformed.
    Family(FamilyParseError),
    /// An attribute does not hold a value of its field's type.
    Xml(XmlValueError),
}

/// The value of an [`Error`].
pub enum ErrorModel {
    Debug(DebugErrorModel),
    Family(FamilyErrorModel),
    Xml(XmlErrorModel),
}

impl View for Error {
    type V = ErrorModel;

    open spec fn view(&self) -> ErrorModel {
        match self {
            Error::Debug(e) => ErrorModel::Debug(e@),
            Error::Family(e) => ErrorModel::Family(e@),
            Error::Xml(e) => ErrorModel::Xml(e@),
        }
    }
}

impl From<DebugAccessParseError> for Error {
    fn from(value: DebugAccessParseError) -> (r: Self)
        ensures
            r == Error::Debug(value),
    {
        Error::Debug(value)
    }
}

impl vstd::std_specs::convert::FromSpecImpl<DebugAccessParseError> for Error {
    open spec fn obeys_from_spec() -> bool {
        true
    }

    open spec fn from_spec(v: DebugAccessParseError) -> Error {
        Error::Debug(v)
    }
}

impl From<FamilyParseError> for Error {
    fn from(value: FamilyParseError) -> (r: Self)
        ensures
            r == Error::Family(value),
    {
        Error::Family(value)
    }
}

impl vstd::std_specs::convert::FromSpecImpl<FamilyParseError> for Error {
    open spec fn obeys_from_spec() -> bool {
        true
    }

    open spec fn from_spec(v: FamilyParseError) -> Error {
        Error::Family(v)
    }
}

} // verus!
