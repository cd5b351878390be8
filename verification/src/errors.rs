//! The closed error taxonomy.  Callers branch on the variant; every error is
//! terminal for the unit of work (one contact, or one calendar render) it
//! occurs in.

use vstd::prelude::*;

verus! {

/// Failure of calendar serialization.  Raised before any output text is
/// produced, so a rejected calendar never yields truncated output.
#[derive(Debug, Clone, PartialEq)]
pub enum SerializationError {
    /// The named component collection is non-empty, and rendering it is
    /// unsupported.
    SerializationNotImplemented(String),
}

/// Failure of extraction or event generation.
#[derive(Debug, Clone, PartialEq)]
pub enum EventExtractorError {
    /// The named property is missing from the contact.
    PropertyNotFound(String),
    /// The named property is present but carries no value.
    PropertyValueNotFound(String),
    /// The property is not usable as a date source, for the given reason.
    DateExtractionFailed(String),
    /// The named date field could not be parsed from the given substring.
    ParseDateFailed(String, String),
    /// The date value has an unexpected shape, or the requested calendar
    /// date does not exist.
    UnexpectedDateFormat,
    /// A wrapped serialization failure.
    SerializationError(SerializationError),
}

} // verus!
