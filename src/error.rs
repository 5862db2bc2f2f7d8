use vstd::prelude::*;

verus! {

/// Why a native declaration could not be mapped.
#[derive(Clone, Copy, Debug, PartialEq, Eq, Structural)]
pub enum Error {
    /// A type is outside the supported shapes.
    UnsupportedType,
    /// A symbol does not start with the module prefix.
    PrefixMismatch,
    /// A symbol is exactly the module prefix.
    EmptyName,
}

pub type Result<T> = core::result::Result<T, Error>;

} // verus!
