//! The library's error types: the classifier's rejections, the directive
//! parser's rejections, and the record-shape rejections that the driver
//! reports before generation starts.  Each error renders to the diagnostic
//! text the generated compile error carries.

use vstd::prelude::*;

verus! {

/// A rejection raised while classifying a field or parsing its directives.
/// Generation aborts on the first error; the caller attributes it to the
/// field's source location.
#[derive(Clone, Copy, PartialEq, Eq, Structural, Debug)]
pub enum Error {
    /// An optional field carries a `value` fallback: the wrapper already
    /// encodes absence, so a fallback is contradictory.
    OptionalWithValue,
    /// `skip` on a required field: there would be no way to supply it.
    SkipOnRequired,
    /// `once` on a field that owns no slot: its setter is already
    /// state-preserving, so "settable only once" is meaningless.
    OnceOnNonRequired,
    /// A directive whose name is none of the known ones.
    UnknownAttr,
    /// A directive that does not follow its grammar.
    MalformedAttr,
    /// A directive value that must be a callable but does not parse as a
    /// function path or a closure.
    MalformedCallable,
}

impl Error {
    /// The diagnostic text attached to the compile error this rejection
    /// becomes.
    pub fn message(&self) -> (r: &'static str)
        ensures
            r@ == match self {
                Error::OptionalWithValue => "optional field cannot have default value"@,
                Error::SkipOnRequired => "cannot skip a required field"@,
                Error::OnceOnNonRequired => "once cannot be applied to optional or valued fields"@,
                Error::UnknownAttr => "unknown attribute"@,
                Error::MalformedAttr => "malformed attribute"@,
                Error::MalformedCallable => "expected a function path or a closure"@,
            },
    {
        match self {
            Error::OptionalWithValue => "optional field cannot have default value",
            Error::SkipOnRequired => "cannot skip a required field",
            Error::OnceOnNonRequired => "once cannot be applied to optional or valued fields",
            Error::UnknownAttr => "unknown attribute",
            Error::MalformedAttr => "malformed attribute",
            Error::MalformedCallable => "expected a function path or a closure",
        }
    }
}

/// A record shape the generator does not support.  The driver raises these
/// before any field is classified.
#[derive(Clone, Copy, PartialEq, Eq, Structural, Debug)]
pub enum BuilderError {
    /// The declaration is a tagged union (an `enum`).
    Enum,
    /// The declaration is an untagged union.
    Union,
    /// The record's fields are positional, not named.
    UnnamedFields,
    /// The record has no fields at all.
    UnitStruct,
}

impl BuilderError {
    /// The diagnostic text attached to the compile error this rejection
    /// becomes.
    pub fn message(&self) -> (r: &'static str)
        ensures
            r@ == match self {
                BuilderError::Enum => "Builder does not support enums"@,
                BuilderError::Union => "Builder does not support unions"@,
                BuilderError::UnnamedFields => "Builder does not support unnamed fields"@,
                BuilderError::UnitStruct => "Builder does not support unit structs"@,
            },
    {
        match self {
            BuilderError::Enum => "Builder does not support enums",
            BuilderError::Union => "Builder does not support unions",
            BuilderError::UnnamedFields => "Builder does not support unnamed fields",
            BuilderError::UnitStruct => "Builder does not support unit structs",
        }
    }
}

} // verus!
