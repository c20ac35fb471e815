//! The reading of a raw argument word as a typed argument.

use vstd::prelude::*;

verus! {

/// A type that an argument word of a frame can be read as. Each handler
/// reads the words it receives through this, according to its own signature.
pub trait SysArg: core::fmt::Display + Sized {
    /// The value that the word `value` stands for.
    spec fn spec_from_usize(value: usize) -> Self;

    /// Reads the word `value` as a value of this type.
    fn from_usize(value: usize) -> (arg: Self)
        ensures
            arg == Self::spec_from_usize(value),
    ;
}

impl SysArg for usize {
    /// A word read as an integer is the word itself.
    open spec fn spec_from_usize(value: usize) -> usize {
        value
    }

    fn from_usize(value: usize) -> (arg: usize) {
        value
    }
}

} // verus!
