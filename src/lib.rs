//! Closed enumerations whose variants are stored as scalar column values.
//!
//! An [`ActiveEnum`] pairs each variant of a Rust enum with one persisted
//! scalar (a string or a fixed-width integer). The pairing is a bijection onto
//! a subset of the scalar type: encoding is total, decoding rejects every
//! scalar outside the image with an exact, user-facing message. The laws that
//! follow from this are stated and proved in [`laws`].
mod decimal;
pub mod scalar;
pub mod column;
pub mod error;
pub mod active_enum;
pub mod discriminant;
pub mod laws;
pub mod samples;

pub use active_enum::ActiveEnum;
pub use column::{ColumnDef, ColumnType};
pub use error::DbErr;
pub use scalar::ScalarValue;
