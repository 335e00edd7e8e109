//! Memory Mapped Input/Output types and functions.

use vstd::prelude::*;

pub mod bitopts;

pub mod registers;

verus! {

/// Descriptive name for each register.
///
/// A register tag is a zero-size nominal marker: two `Field` or `FieldValue`
/// values are combinable only if they share the same tag, so fields of
/// different registers cannot be mixed up by accident.
pub trait RegisterLongName {}

impl RegisterLongName for () {}

/// Conversion of a raw register value into a member of an enumerated type.
///
/// Implementors decode the raw value of one bit field; a raw value with no
/// enumerated meaning yields `None` rather than failing. The executable
/// decoder must agree with the implementor's own specification of the
/// decoding, so that register reads through it have an exact contract.
pub trait TryFromValue<V>: Sized {
    type EnumType;

    /// What the decoder returns for each raw value. An implementor
    /// overrides this with its exact decoding, and its executable decoder
    /// is then held to it; an implementor that keeps the default leaves
    /// its decoding unspecified.
    open spec fn spec_try_from(v: V) -> Option<Self::EnumType> {
        vstd::pervasive::arbitrary()
    }

    fn try_from(v: V) -> (r: Option<Self::EnumType>)
        ensures
            r == Self::spec_try_from(v),
    ;
}

} // verus!
