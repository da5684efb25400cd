//! Typed, multi-profile projection of domain values onto the scalars of a
//! tabular record.
//!
//! A domain value is projected onto an external scalar (a string or an
//! integer) under a *target*: a marker type that selects one of several
//! conversion policies. The result is a [`CsvValue`], which carries the
//! scalar together with the domain type and the target as type parameters,
//! so that scalars produced under different targets cannot be mixed up.
//!
//! - [`csv_value`]: the tagged scalar.
//! - [`to_csv`]: the forward projection [`ToCsv`], and its lifting to
//!   optional values.
//! - [`from_csv`]: the inverse projection [`FromCsv`] and its error.
//! - [`target`]: the targets.
//! - [`sample_value`] and [`sample_csv`]: a sample domain type, its
//!   projections, and the laws that relate them.
//!
//! Every function is total. The contracts are stated over the mathematical
//! value of each type: a string is the sequence of its characters, an
//! integer is itself, and a tagged scalar is its scalar.

pub mod csv_value;
pub mod from_csv;
pub mod sample_csv;
pub mod sample_value;
pub mod target;
pub mod to_csv;

pub use csv_value::CsvValue;
pub use from_csv::{ConversionError, FromCsv};
pub use sample_value::{SampleValue, SampleValueView};
pub use target::{DefaultTarget, Japanese};
pub use to_csv::ToCsv;
