//! Reconciles an image file's embedded capture-time metadata with the
//! filesystem's own modification timestamp, so that both reflect the earliest
//! known creation moment of the asset.
//!
//! The decision core is verified: parsing the fixed `YYYY:MM:DD HH:MM:SS`
//! textual form, choosing the earliest of the parsed embedded candidates and
//! the filesystem-derived candidate, and formatting the canonical result back.
//! Reading and writing the actual file is left to the caller, which hands the
//! raw field values in and receives a write plan back.

pub mod codec;
pub mod resolve;
pub mod sync;
pub mod sync_error;
pub mod timestamp;
