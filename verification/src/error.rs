//! The error taxonomy of the decoder. Every failure is fail-fast: the first
//! error anywhere in a document aborts the whole decode.

use vstd::prelude::*;

verus! {

/// A decoding failure, identifying the offending record kind, attribute and
/// raw text where one exists.
#[derive(Debug, PartialEq, Eq, Clone)]
pub enum DecodeError {
    /// A required attribute is absent from a record element.
    MissingAttribute { section: String, attribute: String },
    /// An attribute is present but its text cannot be read as the expected
    /// scalar type.
    MalformedValue { section: String, attribute: String, raw: String, target: String },
    /// An enumerated attribute holds a tag outside the closed set.
    UnknownEnumValue { enumeration: String, raw: String },
    /// A calendar date or date-time string cannot be read, or no instant
    /// corresponds to it in the requested timezone.
    InvalidDate { raw: String },
    /// A timezone abbreviation is not in the caller-supplied table.
    UnknownTimezoneAbbreviation { abbreviation: String },
    /// A statement has zero, or more than one, account identity record.
    StatementStructureError { reason: String },
    /// The document is not well-formed XML.
    MalformedDocument,
}

/// The abstract value of a `DecodeError`.
pub enum ErrorModel {
    MissingAttribute { section: Seq<char>, attribute: Seq<char> },
    MalformedValue { section: Seq<char>, attribute: Seq<char>, raw: Seq<char>, target: Seq<char> },
    UnknownEnumValue { enumeration: Seq<char>, raw: Seq<char> },
    InvalidDate { raw: Seq<char> },
    UnknownTimezoneAbbreviation { abbreviation: Seq<char> },
    StatementStructureError { reason: Seq<char> },
    MalformedDocument,
}

impl DeepView for DecodeError {
    type V = ErrorModel;

    open spec fn deep_view(&self) -> ErrorModel {
        match *self {
            DecodeError::MissingAttribute { section, attribute } => ErrorModel::MissingAttribute {
                section: section@,
                attribute: attribute@,
            },
            DecodeError::MalformedValue { section, attribute, raw, target } => ErrorModel::MalformedValue {
                section: section@,
                attribute: attribute@,
                raw: raw@,
                target: target@,
            },
            DecodeError::UnknownEnumValue { enumeration, raw } => ErrorModel::UnknownEnumValue {
                enumeration: enumeration@,
                raw: raw@,
            },
            DecodeError::InvalidDate { raw } => ErrorModel::InvalidDate { raw: raw@ },
            DecodeError::UnknownTimezoneAbbreviation { abbreviation } => ErrorModel::UnknownTimezoneAbbreviation {
                abbreviation: abbreviation@,
            },
            DecodeError::StatementStructureError { reason } => ErrorModel::StatementStructureError {
                reason: reason@,
            },
            DecodeError::MalformedDocument => ErrorModel::MalformedDocument,
        }
    }
}

/// `b`, unless `a` already failed: decoding is fail-fast, in attribute
/// declaration order.
pub open spec fn first_err<A, B>(a: Result<A, ErrorModel>, b: Result<B, ErrorModel>) -> Result<
    B,
    ErrorModel,
> {
    match a {
        Ok(_) => b,
        Err(e) => Err(e),
    }
}

/// The abstract value of a `Result`, both sides viewed.
pub open spec fn res_model<T: DeepView, E: DeepView>(r: Result<T, E>) -> Result<T::V, E::V> {
    match r {
        Ok(v) => Ok(v.deep_view()),
        Err(e) => Err(e.deep_view()),
    }
}

} // verus!
