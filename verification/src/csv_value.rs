//! The tagged scalar that a projection produces.

use std::marker::PhantomData;
use vstd::prelude::*;
use vstd::std_specs::cmp::{PartialEqSpec, PartialEqSpecImpl};
use vstd::std_specs::convert::{FromSpec, FromSpecImpl};

verus! {

/// One scalar of type `After`, tagged with the domain type `Before` that it
/// was projected from and with the `Target` under which it was projected.
///
/// The two tags exist in the type only: a value holds nothing but its
/// scalar, and two values whose tags differ have different types.
#[derive(Debug, PartialOrd, Ord)]
pub struct CsvValue<After, Before, Target>(After, PhantomData<Before>, PhantomData<Target>);

impl<After, Before, Target> CsvValue<After, Before, Target> {
    /// The scalar that the value wraps.
    pub closed spec fn scalar(self) -> After {
        self.0
    }

    /// Wraps `value`, whatever it holds: no scalar is refused, and nothing
    /// ties the scalar to the tags.
    pub fn new(value: After) -> (out: Self)
        ensures
            out.scalar() == value,
    {
        CsvValue(value, PhantomData, PhantomData)
    }

    /// Borrows the wrapped scalar.
    pub fn value(&self) -> (value: &After)
        ensures
            *value == self.scalar(),
    {
        &self.0
    }

    /// Gives up the tags and returns the wrapped scalar.
    pub fn into_value(self) -> (value: After)
        ensures
            value == self.scalar(),
    {
        self.0
    }

    /// A value holds nothing but its scalar: two values of one type that
    /// wrap the same scalar are the same value.
    pub proof fn lemma_scalar_determines_value(self, other: Self)
        requires
            self.scalar() == other.scalar(),
        ensures
            self == other,
    {
    }

    /// The value that a scalar is converted into wraps that scalar.
    pub proof fn lemma_from_spec_wraps(value: After)
        ensures
            <Self as FromSpec<After>>::from_spec(value).scalar() == value,
    {
    }
}

/// A tagged scalar stands for the mathematical value of its scalar: the tags
/// do not show in it.
impl<After: DeepView, Before, Target> View for CsvValue<After, Before, Target> {
    type V = After::V;

    open spec fn view(&self) -> After::V {
        self.scalar().deep_view()
    }
}

impl<After: Clone, Before, Target> Clone for CsvValue<After, Before, Target> {
    /// Clones the scalar and keeps the tags.
    fn clone(&self) -> (out: Self)
        ensures
            cloned(self.scalar(), out.scalar()),
    {
        CsvValue(self.0.clone(), PhantomData, PhantomData)
    }
}

impl<After: PartialEq, Before, Target> PartialEq for CsvValue<After, Before, Target> {
    /// Two values of one type are equal when their scalars are: the result
    /// is what `==` gives on the two scalars.
    fn eq(&self, other: &Self) -> (same: bool)
        ensures
            call_ensures(After::eq, (&self.scalar(), &other.scalar()), same),
    {
        self.0 == other.0
    }
}

impl<After: PartialEq, Before, Target> PartialEqSpecImpl for CsvValue<After, Before, Target> {
    open spec fn obeys_eq_spec() -> bool {
        After::obeys_eq_spec()
    }

    open spec fn eq_spec(&self, other: &Self) -> bool {
        self.scalar().eq_spec(&other.scalar())
    }
}

impl<After: Eq, Before, Target> Eq for CsvValue<After, Before, Target> {

}

impl<After, Before, Target> From<After> for CsvValue<After, Before, Target> {
    /// Wraps `val`, as [`CsvValue::new`] does.
    fn from(val: After) -> (out: Self)
        ensures
            out.scalar() == val,
    {
        CsvValue(val, PhantomData, PhantomData)
    }
}

impl<After, Before, Target> FromSpecImpl<After> for CsvValue<After, Before, Target> {
    open spec fn obeys_from_spec() -> bool {
        true
    }

    closed spec fn from_spec(v: After) -> Self {
        CsvValue(v, PhantomData, PhantomData)
    }
}

} // verus!
