//! The domain value that the projections of this crate start from.

use vstd::prelude::*;
use vstd::std_specs::cmp::PartialEqSpecImpl;

verus! {

/// A sample domain value: two named variants and a catch-all that carries
/// an arbitrary string.
#[derive(Debug)]
pub enum SampleValue {
    SampleA,
    SampleB,
    Other(String),
}

/// The mathematical value of a [`SampleValue`]: the payload of the catch-all
/// is a sequence of characters.
pub enum SampleValueView {
    SampleA,
    SampleB,
    Other(Seq<char>),
}

impl View for SampleValue {
    type V = SampleValueView;

    open spec fn view(&self) -> SampleValueView {
        match self {
            SampleValue::SampleA => SampleValueView::SampleA,
            SampleValue::SampleB => SampleValueView::SampleB,
            SampleValue::Other(payload) => SampleValueView::Other(payload@),
        }
    }
}

impl Clone for SampleValue {
    /// Copies the value, payload included.
    fn clone(&self) -> (copy: Self)
        ensures
            copy@ == self@,
    {
        match self {
            SampleValue::SampleA => SampleValue::SampleA,
            SampleValue::SampleB => SampleValue::SampleB,
            SampleValue::Other(payload) => SampleValue::Other(payload.clone()),
        }
    }
}

impl PartialEq for SampleValue {
    /// Two values are equal when they are the same variant and, for the
    /// catch-all, carry the same characters.
    fn eq(&self, other: &Self) -> (same: bool)
        ensures
            same <==> self@ == other@,
    {
        match (self, other) {
            (SampleValue::SampleA, SampleValue::SampleA) => true,
            (SampleValue::SampleB, SampleValue::SampleB) => true,
            (SampleValue::Other(left), SampleValue::Other(right)) => *left == *right,
            _ => false,
        }
    }
}

impl PartialEqSpecImpl for SampleValue {
    open spec fn obeys_eq_spec() -> bool {
        true
    }

    open spec fn eq_spec(&self, other: &Self) -> bool {
        self@ == other@
    }
}

impl Eq for SampleValue {

}

} // verus!
