//! The error types of the engine.
//!
//! Errors discovered while loading data are returned eagerly and stop the
//! load: they are configuration-time mistakes.  Errors discovered while
//! formatting never abort the call: the interpreter completes the whole
//! pattern and reports only the first error it met.

use vstd::prelude::*;
use crate::fields::ErrorField;

verus! {

/// An error reported by a data backend for one fetch.
#[derive(Debug, Copy, Clone, PartialEq, Eq, Structural)]
pub enum DataError {
    /// The backend holds no payload under the requested key.
    MarkerNotFound,
    /// The backend's payload did not have the shape the category requires.
    Malformed,
    /// The backend could not be reached or failed while reading.
    Unavailable,
}

/// An error returned while loading data for a pattern or a single category.
#[derive(Debug, Copy, Clone, PartialEq, Eq, Structural)]
pub enum PatternLoadError {
    /// A category was asked to load a second, different width.  The field
    /// identifies the category approximately.
    ConflictingField(ErrorField),
    /// The backend fetch failed with the carried error.
    Data(DataError, ErrorField),
    /// The pattern requests a symbol-and-length combination this engine
    /// does not know how to resolve.
    UnsupportedLength(ErrorField),
}

/// An error met while interpolating a pattern.  At most the first such
/// error is surfaced as the overall result of a formatting call; the
/// output itself carries an error-tagged span for every failed field.
#[derive(Debug, Clone, PartialEq, Eq)]
pub enum DateTimeWriteError {
    /// The runtime value lacks a field the pattern requires; the carried
    /// name says which.
    MissingInputField(&'static str),
    /// Names for a field of the pattern were never loaded.
    NamesNotLoaded(ErrorField),
    /// A numeric field appeared but the numeric formatter is not loaded.
    FixedDecimalFormatterNotLoaded,
    /// The runtime month code does not parse or has no entry in the table.
    InvalidMonthCode,
    /// The runtime era has no entry in the loaded table.
    InvalidEraCode,
    /// The runtime cyclic year number lies outside the loaded table; the
    /// carried maximum is the largest valid number plus one.
    InvalidYearNumber { max: usize },
}

/// An error from looking up a month name.
#[derive(Debug, Copy, Clone, PartialEq, Eq, Structural)]
pub enum GetNameForMonthError {
    /// The field length selects no known month-name width.
    InvalidFieldLength,
    /// The month code does not parse or has no entry in the table.
    InvalidMonthCode,
    /// Month names of the requested width are not loaded.
    NotLoaded,
}

/// An error from looking up a weekday name.
#[derive(Debug, Copy, Clone, PartialEq, Eq, Structural)]
pub enum GetNameForWeekdayError {
    /// The field length selects no known weekday-name width.
    InvalidFieldLength,
    /// Weekday names of the requested width are not loaded, or the loaded
    /// table is shorter than seven entries.
    NotLoaded,
}

/// An error from looking up an era name.
#[derive(Debug, Copy, Clone, PartialEq, Eq, Structural)]
pub enum GetNameForEraError {
    /// The field length selects no known year-name width.
    InvalidFieldLength,
    /// The era code or index has no entry in the table, or the table kind
    /// does not match the input kind.
    InvalidEraCode,
    /// Year names of the requested width are not loaded.
    NotLoaded,
}

/// An error from looking up a cyclic year name.
#[derive(Debug, Copy, Clone, PartialEq, Eq, Structural)]
pub enum GetNameForCyclicYearError {
    /// The field length selects no known year-name width.
    InvalidFieldLength,
    /// The cyclic year number lies outside the table; the carried maximum
    /// is the largest valid number plus one.
    InvalidYearNumber { max: usize },
    /// Year names of the requested width are not loaded.
    NotLoaded,
}

/// An error from looking up a day-period name.
#[derive(Debug, Copy, Clone, PartialEq, Eq, Structural)]
pub enum GetNameForDayPeriodError {
    /// The field length selects no known day-period width.
    InvalidFieldLength,
    /// Day-period names of the requested width are not loaded, or the
    /// table lacks the needed entry.
    NotLoaded,
}

} // verus!
