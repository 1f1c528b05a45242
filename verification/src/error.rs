//! Failures that the library reports, and the outcome of looking a record up.

use vstd::prelude::*;
use vstd::string::StringExecFns;

verus! {

/// Why an operation on override sets or on the activation policy failed.
#[derive(Debug, Clone, Copy, PartialEq, Eq, Structural)]
pub enum ThemeError {
    /// A named record, or the file at a given path, does not exist.
    NotFound,
    /// A stored record could not be read back as a value.
    ParseError,
    /// A slot name outside the catalog was used.
    InvalidSlot,
    /// The policy selects no override set.
    NoActiveOverride,
    /// A file or directory could not be created or written.
    IOError,
    /// Change notifications could not be subscribed to, or their stream broke.
    WatchError,
}

impl ThemeError {
    /// The text shown to a user for this failure.
    pub open spec fn spec_message(self) -> Seq<char> {
        match self {
            ThemeError::NotFound => "Could not find theme"@,
            ThemeError::ParseError => "Could not read theme"@,
            ThemeError::InvalidSlot => "Invalid key"@,
            ThemeError::NoActiveOverride => "No configured active overrides"@,
            ThemeError::IOError => "Failed to write theme"@,
            ThemeError::WatchError => "Failed to watch for theme changes"@,
        }
    }

    /// A single human-readable line that describes the failure.
    pub fn message(&self) -> (text: String)
        ensures
            text@ == self.spec_message(),
    {
        match self {
            ThemeError::NotFound => String::from_str("Could not find theme"),
            ThemeError::ParseError => String::from_str("Could not read theme"),
            ThemeError::InvalidSlot => String::from_str("Invalid key"),
            ThemeError::NoActiveOverride => String::from_str("No configured active overrides"),
            ThemeError::IOError => String::from_str("Failed to write theme"),
            ThemeError::WatchError => String::from_str("Failed to watch for theme changes"),
        }
    }
}

/// What a look-up in persistent storage produced.
#[derive(Debug)]
pub enum Lookup<T> {
    /// Nothing is stored under the name or path.
    Missing,
    /// Something is stored, but it is not a well-formed record.
    Malformed,
    /// The stored record.
    Found(T),
}

impl<T: View> View for Lookup<T> {
    type V = Lookup<T::V>;

    open spec fn view(&self) -> Lookup<T::V> {
        match self {
            Lookup::Missing => Lookup::Missing,
            Lookup::Malformed => Lookup::Malformed,
            Lookup::Found(record) => Lookup::Found(record@),
        }
    }
}

impl<T> Lookup<T> {
    /// The record, or the failure that its absence stands for.
    pub open spec fn spec_require(self) -> Result<T, ThemeError> {
        match self {
            Lookup::Missing => Err(ThemeError::NotFound),
            Lookup::Malformed => Err(ThemeError::ParseError),
            Lookup::Found(record) => Ok(record),
        }
    }

    /// Turns the outcome of a look-up into the record or a typed failure:
    /// `NotFound` when nothing is stored, `ParseError` when the stored
    /// record is malformed.
    pub fn require(self) -> (outcome: Result<T, ThemeError>)
        ensures
            outcome == self.spec_require(),
    {
        match self {
            Lookup::Missing => Err(ThemeError::NotFound),
            Lookup::Malformed => Err(ThemeError::ParseError),
            Lookup::Found(record) => Ok(record),
        }
    }
}

} // verus!
