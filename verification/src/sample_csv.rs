//! The projections of [`SampleValue`].
//!
//! | scalar  | target   | `SampleA`   | `SampleB`   | `Other(s)`      |
//! |---------|----------|-------------|-------------|-----------------|
//! | string  | default  | `SampleA`   | `SampleB`   | `s`             |
//! | string  | Japanese | `サンプルA` | `サンプルB` | `その他: ` + `s` |
//! | integer | default  | `0`         | `1`         | `999`           |
//!
//! Only the integer projection is inverted, and only up to the payload of
//! the catch-all, which the code 999 does not hold. The string projections
//! are not inverted. Under the default target no inverse exists:
//! `Other("SampleA")` and `SampleA` are projected onto the same string.

use crate::csv_value::CsvValue;
use crate::from_csv::{ConversionError, FromCsv};
use crate::sample_value::{SampleValue, SampleValueView};
use crate::target::{DefaultTarget, Japanese};
use crate::to_csv::ToCsv;
use vstd::prelude::*;

verus! {

impl SampleValueView {
    /// The string of the value under the default target.
    pub open spec fn default_text(self) -> Seq<char> {
        match self {
            SampleValueView::SampleA => "SampleA"@,
            SampleValueView::SampleB => "SampleB"@,
            SampleValueView::Other(payload) => payload,
        }
    }

    /// The string of the value under the Japanese target.
    pub open spec fn japanese_text(self) -> Seq<char> {
        match self {
            SampleValueView::SampleA => "サンプルA"@,
            SampleValueView::SampleB => "サンプルB"@,
            SampleValueView::Other(payload) => "その他: "@ + payload,
        }
    }

    /// The integer code of the value under the default target.
    pub open spec fn default_code(self) -> i64 {
        match self {
            SampleValueView::SampleA => 0,
            SampleValueView::SampleB => 1,
            SampleValueView::Other(_) => 999,
        }
    }

    /// The value that an integer code stands for under the default target.
    /// The code of the catch-all stands for the catch-all with an empty
    /// payload.
    pub open spec fn of_default_code(code: i64) -> Result<SampleValueView, ConversionError> {
        if code == 0 {
            Ok(SampleValueView::SampleA)
        } else if code == 1 {
            Ok(SampleValueView::SampleB)
        } else if code == 999 {
            Ok(SampleValueView::Other(Seq::empty()))
        } else {
            Err(ConversionError::UnrecognizedCode(code))
        }
    }
}

/// The string of a value under the default target: the name of a named
/// variant, and the payload of the catch-all as it is.
impl ToCsv<String, SampleValue, DefaultTarget> for SampleValue {
    open spec fn projected(&self) -> Seq<char> {
        self@.default_text()
    }

    fn to_csv(&self) -> (out: CsvValue<String, SampleValue, DefaultTarget>) {
        match self {
            SampleValue::SampleA => CsvValue::new("SampleA".to_string()),
            SampleValue::SampleB => CsvValue::new("SampleB".to_string()),
            SampleValue::Other(payload) => CsvValue::new(payload.clone()),
        }
    }
}

/// The string of a value under the Japanese target: the Japanese name of a
/// named variant, and the payload of the catch-all behind a fixed prefix.
impl ToCsv<String, SampleValue, Japanese> for SampleValue {
    open spec fn projected(&self) -> Seq<char> {
        self@.japanese_text()
    }

    fn to_csv(&self) -> (out: CsvValue<String, SampleValue, Japanese>) {
        match self {
            SampleValue::SampleA => CsvValue::new("サンプルA".to_string()),
            SampleValue::SampleB => CsvValue::new("サンプルB".to_string()),
            SampleValue::Other(payload) => {
                let mut text = "その他: ".to_string();
                text.append(payload.as_str());
                CsvValue::new(text)
            },
        }
    }
}

/// The integer code of a value under the default target. The code of the
/// catch-all is the same for every payload.
impl ToCsv<i64, SampleValue, DefaultTarget> for SampleValue {
    open spec fn projected(&self) -> i64 {
        self@.default_code()
    }

    fn to_csv(&self) -> (out: CsvValue<i64, SampleValue, DefaultTarget>) {
        match self {
            SampleValue::SampleA => CsvValue::new(0),
            SampleValue::SampleB => CsvValue::new(1),
            SampleValue::Other(_) => CsvValue::new(999),
        }
    }
}

/// The inverse of the integer projection under the default target. The
/// code of the catch-all gives the catch-all with an empty payload; an
/// integer that is no code is an error.
impl FromCsv<SampleValue> for i64 {
    open spec fn reconstructed(val: i64) -> Result<SampleValueView, ConversionError> {
        SampleValueView::of_default_code(val)
    }

    fn from_csv(val: i64) -> (out: Result<SampleValue, ConversionError>)
        ensures
            out is Ok <==> val == 0 || val == 1 || val == 999,
            out is Err ==> out == Err::<SampleValue, ConversionError>(
                ConversionError::UnrecognizedCode(val),
            ),
    {
        if val == 0 {
            Ok(SampleValue::SampleA)
        } else if val == 1 {
            Ok(SampleValue::SampleB)
        } else if val == 999 {
            Ok(SampleValue::Other(String::new()))
        } else {
            Err(ConversionError::UnrecognizedCode(val))
        }
    }
}

/// Every value is projected onto two different strings under the two
/// targets: what one target wrote cannot be taken for what the other wrote
/// for the same value.
pub proof fn lemma_targets_give_different_text(value: SampleValue)
    ensures
        ToCsv::<String, SampleValue, DefaultTarget>::projected(&value) != ToCsv::<
            String,
            SampleValue,
            Japanese,
        >::projected(&value),
{
    reveal_strlit("SampleA");
    reveal_strlit("SampleB");
    reveal_strlit("サンプルA");
    reveal_strlit("サンプルB");
    reveal_strlit("その他: ");
    match value@ {
        SampleValueView::SampleA => {
            assert("SampleA"@.len() != "サンプルA"@.len());
        },
        SampleValueView::SampleB => {
            assert("SampleB"@.len() != "サンプルB"@.len());
        },
        SampleValueView::Other(payload) => {
            assert(("その他: "@ + payload).len() != payload.len());
        },
    }
}

/// A named variant comes back unchanged from its integer code.
pub proof fn lemma_code_round_trip_of_named(value: SampleValue)
    requires
        value is SampleA || value is SampleB,
    ensures
        FromCsv::<SampleValue>::reconstructed(
            ToCsv::<i64, SampleValue, DefaultTarget>::projected(&value),
        ) == Ok::<SampleValueView, ConversionError>(value@),
{
}

/// The catch-all comes back from its integer code without its payload: the
/// code does not hold the payload, so the round trip loses it.
pub proof fn lemma_code_round_trip_of_other(value: SampleValue)
    requires
        value is Other,
    ensures
        FromCsv::<SampleValue>::reconstructed(
            ToCsv::<i64, SampleValue, DefaultTarget>::projected(&value),
        ) == Ok::<SampleValueView, ConversionError>(SampleValueView::Other(Seq::empty())),
{
}

/// An integer is reconstructed to a value exactly when it is one of the
/// three codes. Any other integer is rejected, and the error holds it.
pub proof fn lemma_codes_accepted(code: i64)
    ensures
        FromCsv::<SampleValue>::reconstructed(code) is Ok <==> code == 0 || code == 1 || code
            == 999,
        FromCsv::<SampleValue>::reconstructed(code) is Err ==> FromCsv::<
            SampleValue,
        >::reconstructed(code) == Err::<SampleValueView, ConversionError>(
            ConversionError::UnrecognizedCode(code),
        ),
{
}

/// A code that is accepted is the code of the value that it is
/// reconstructed to.
pub proof fn lemma_accepted_code_is_kept(code: i64, value: SampleValue)
    requires
        FromCsv::<SampleValue>::reconstructed(code) == Ok::<SampleValueView, ConversionError>(
            value@,
        ),
    ensures
        ToCsv::<i64, SampleValue, DefaultTarget>::projected(&value) == code,
{
}

} // verus!
