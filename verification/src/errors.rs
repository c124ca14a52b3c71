//! The reasons building a typed GeoJSON value out of a generic JSON tree can
//! fail.  Construction is all-or-nothing: every extractor reports the first
//! failure it meets and no partial value is ever returned.

use vstd::prelude::*;

verus! {

/// A failure met while building a typed value from a generic JSON tree.
#[derive(Clone, Copy, Debug, PartialEq, Eq, Structural)]
pub enum Error {
    /// A field's JSON value was present but of the wrong JSON type.
    ExpectedType,
    /// A required field key was missing.
    ExpectedProperty,
    /// The `"bbox"` member was present but malformed: not an array, an array
    /// holding a non-number, or an array whose length is not an even number
    /// of at least four bounds.
    BboxExtraction,
    /// A member of a `"crs"` encoding had the wrong JSON type.
    CrsExpectedType,
    /// A `"crs"` member matched neither of the two recognized encodings: its
    /// `"type"` was missing or unrecognized, or a required sub-member of the
    /// recognized form was missing.
    CrsInvalid,
}

impl Error {
    /// A short description of the failure.
    pub fn describe(&self) -> (r: &'static str)
        ensures
            r@ == match self {
                Error::ExpectedType => "expected a value of a different JSON type"@,
                Error::ExpectedProperty => "expected a property that was missing"@,
                Error::BboxExtraction => "malformed bounding box"@,
                Error::CrsExpectedType => "malformed coordinate reference system member"@,
                Error::CrsInvalid => "unrecognized coordinate reference system encoding"@,
            },
    {
        match self {
            Error::ExpectedType => "expected a value of a different JSON type",
            Error::ExpectedProperty => "expected a property that was missing",
            Error::BboxExtraction => "malformed bounding box",
            Error::CrsExpectedType => "malformed coordinate reference system member",
            Error::CrsInvalid => "unrecognized coordinate reference system encoding",
        }
    }
}

} // verus!
