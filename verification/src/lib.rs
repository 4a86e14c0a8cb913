//! Schema versioning: a closed union over the historical shapes of a type,
//! total migration into the current shape, and a codec-agnostic round trip
//! that tags every payload with its slot.
//!
//! - [`declaration`] reads what a type declares: its attributes, and the
//!   list of shapes in `versioned(versions = [First, Second, ...])`.
//! - [`generator`] turns a declaration into the version union and the
//!   source of its dispatch.
//! - [`tag`] renders and recognises the identifiers of slots.
//! - [`versioned`] holds the migration contracts and the format adapter,
//!   [`error`] the two kinds of failure, [`laws`] what holds of every round
//!   trip.
//! - [`sample`] is a worked schema.

pub mod declaration;
pub mod error;
pub mod generator;
pub mod laws;
pub mod sample;
pub mod tag;
pub mod token;
pub mod versioned;

pub use error::{FormatError, FormatErrorSource, VersionConversionError};
pub use generator::{derive_versioned, DeriveError, Expansion};
pub use versioned::{migrate_slot, FromVersion, Versioned};
