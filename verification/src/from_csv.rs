//! Inverse projection: from a raw scalar back to a domain value.

use vstd::prelude::*;

verus! {

/// Why a scalar could not be turned back into a domain value.
#[derive(Clone, Copy, Debug, PartialEq, Eq, Structural)]
pub enum ConversionError {
    /// No variant of the domain type is projected onto this code.
    UnrecognizedCode(i64),
}

/// A scalar type from which a domain value of type `T` can be reconstructed.
///
/// The scalar is raw: it need not come out of a tagged value. A scalar that
/// stands for no domain value is reported as an error and never replaced by
/// a default.
pub trait FromCsv<T: View>: Sized {
    /// What `val` is reconstructed to, as a mathematical value.
    spec fn reconstructed(val: Self) -> Result<T::V, ConversionError>;

    /// Reconstructs the domain value that `val` stands for.
    fn from_csv(val: Self) -> (out: Result<T, ConversionError>)
        ensures
            match out {
                Ok(value) => Self::reconstructed(val) == Ok::<T::V, ConversionError>(value@),
                Err(error) => Self::reconstructed(val) == Err::<T::V, ConversionError>(error),
            },
    ;
}

} // verus!
