//! Errors reported while reading the delay-load import directory.  Every
//! failure is a recoverable "reject this input" condition carrying a
//! human-readable cause.

use vstd::prelude::*;

verus! {

/// One reason a read of the delay-load import data was rejected.
#[derive(Clone, Copy, Debug, PartialEq, Eq, Structural)]
pub enum Error {
    /// The import directory address does not translate to an offset inside
    /// the section buffer.
    InvalidDescriptorAddress,
    /// The buffer ended while a full descriptor record or its null
    /// terminator was still expected.
    MissingNullDescriptor,
    /// A descriptor's library-name address is out of range or no terminator
    /// follows it.
    InvalidNameAddress,
    /// A descriptor's thunk-array address does not translate to an offset
    /// inside the section buffer.
    InvalidThunkTableAddress,
    /// The buffer ended while a full thunk word or its null terminator was
    /// still expected.
    MissingNullThunk,
    /// A name thunk's target address does not translate to an offset inside
    /// the section buffer.
    InvalidThunkAddress,
    /// The buffer ended before the two hint bytes of a hint/name record.
    MissingThunkHint,
    /// No terminator follows the name of a hint/name record.
    MissingThunkName,
}

impl Error {
    /// The cause of this error, in words.
    pub open spec fn spec_message(self) -> Seq<char> {
        match self {
            Error::InvalidDescriptorAddress => "Invalid PE delay-load import descriptor address"@,
            Error::MissingNullDescriptor => "Missing PE null delay-load import descriptor"@,
            Error::InvalidNameAddress => "Invalid PE import descriptor name"@,
            Error::InvalidThunkTableAddress => "Invalid PE delay load import thunk table address"@,
            Error::MissingNullThunk => "Missing PE null delay load import thunk"@,
            Error::InvalidThunkAddress => "Invalid PE delay load import thunk address"@,
            Error::MissingThunkHint => "Missing PE delay load import thunk hint"@,
            Error::MissingThunkName => "Missing PE delay load import thunk name"@,
        }
    }

    /// The cause of this error, in words.
    pub fn message(&self) -> (r: &'static str)
        ensures
            r@ == self.spec_message(),
    {
        match self {
            Error::InvalidDescriptorAddress => "Invalid PE delay-load import descriptor address",
            Error::MissingNullDescriptor => "Missing PE null delay-load import descriptor",
            Error::InvalidNameAddress => "Invalid PE import descriptor name",
            Error::InvalidThunkTableAddress => "Invalid PE delay load import thunk table address",
            Error::MissingNullThunk => "Missing PE null delay load import thunk",
            Error::InvalidThunkAddress => "Invalid PE delay load import thunk address",
            Error::MissingThunkHint => "Missing PE delay load import thunk hint",
            Error::MissingThunkName => "Missing PE delay load import thunk name",
        }
    }
}

} // verus!
