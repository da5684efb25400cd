//! Forward projection: from a domain value to a tagged scalar.

use crate::csv_value::CsvValue;
use vstd::prelude::*;

verus! {

/// A domain type that can be projected onto a scalar of type `After` under
/// `Target`.
///
/// One domain type may implement the trait several times, once for each
/// pair of scalar type and target; the type that the caller expects selects
/// the implementation. `Before` is the domain type that the result is
/// tagged with.
pub trait ToCsv<After: DeepView, Before, Target>: Clone {
    /// The mathematical value of the scalar that `self` is projected onto.
    spec fn projected(&self) -> After::V;

    /// Projects `self`. The projection is total and depends on `self` alone.
    fn to_csv(&self) -> (out: CsvValue<After, Before, Target>)
        ensures
            out@ == self.projected(),
    ;
}

/// Lifts a projection of `Before` to a projection of `Option<Before>`.
///
/// Absence is projected onto absence, and a present value onto the present
/// projection of that value. The target is that of the inner projection.
/// The result is tagged with the inner domain type `Before`, not with
/// `Option<Before>`: a column that may be empty is still a column of
/// `Before`.
impl<After: DeepView, Before: ToCsv<After, Before, Target>, Target> ToCsv<
    Option<After>,
    Before,
    Target,
> for Option<Before> {
    open spec fn projected(&self) -> Option<After::V> {
        match self {
            Some(inner) => Some(inner.projected()),
            None => None,
        }
    }

    fn to_csv(&self) -> (out: CsvValue<Option<After>, Before, Target>)
        ensures
            self is None <==> out.scalar() is None,
            self matches Some(inner) ==> out@ == Some(inner.projected()),
    {
        match self {
            Some(inner) => CsvValue::new(Some(inner.to_csv().into_value())),
            None => CsvValue::new(None),
        }
    }
}

/// Lifting adds nothing of its own: absence is projected onto absence, and
/// a present value onto what the inner projection makes of it, whatever the
/// domain type, the scalar type and the target are.
pub proof fn lemma_lifted_projection<After: DeepView, Before: ToCsv<After, Before, Target>, Target>(
    value: Option<Before>,
)
    ensures
        value is None ==> ToCsv::<Option<After>, Before, Target>::projected(&value) is None,
        value matches Some(inner) ==> ToCsv::<Option<After>, Before, Target>::projected(&value)
            == Some(inner.projected()),
{
}

} // verus!
