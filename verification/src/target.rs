//! The targets: markers that select a conversion policy.
//!
//! A target is a type without fields: it holds no state and takes no room.
//! It only appears as a type parameter, where it keeps apart scalars that
//! were produced under different policies, also where the scalars have the
//! same type.

use vstd::prelude::*;

verus! {

/// The policy that is used where no other is asked for.
#[derive(Clone, Copy, Debug, PartialEq, Eq)]
pub struct DefaultTarget;

/// The policy for Japanese readers.
#[derive(Clone, Copy, Debug, PartialEq, Eq)]
pub struct Japanese;

} // verus!
