//! The ways in which looking up or choosing a constellation can fail.

use vstd::prelude::*;

verus! {

/// Why no constellation could be shown.
#[derive(Clone, Copy, Debug, PartialEq, Eq, Structural)]
pub enum Error {
    /// Neither an explicit path nor a user data directory is available.
    Configuration,
    /// The record's file is missing or cannot be opened.
    NotFound,
    /// The record's file was read but does not hold a valid record.
    Malformed,
    /// The directory of records holds no record at all.
    EmptyCollection,
}

impl Error {
    /// The text shown to the user for each failure.
    pub open spec fn message_text(self) -> Seq<char> {
        match self {
            Error::Configuration => "no resource directory found"@,
            Error::NotFound => "the requested constellation does not exist or is not readable"@,
            Error::Malformed => "the constellation record could not be parsed"@,
            Error::EmptyCollection => "Constellations directory is empty"@,
        }
    }

    /// The text shown to the user for this failure.
    pub fn message(&self) -> (text: &'static str)
        ensures
            text@ == self.message_text(),
    {
        match self {
            Error::Configuration => "no resource directory found",
            Error::NotFound => "the requested constellation does not exist or is not readable",
            Error::Malformed => "the constellation record could not be parsed",
            Error::EmptyCollection => "Constellations directory is empty",
        }
    }
}

} // verus!
