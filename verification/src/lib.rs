//! A lazily initialised registry of shared client handles.
//!
//! The registry owns at most one client instance per kind (and, for the
//! media-player kind, at most one per backend), constructs an instance only
//! on first access, and hands every caller a shared handle to the cached
//! instance. Construction of the real clients is the application's business:
//! each accessor takes the constructor for its kind as an argument and
//! invokes it only when the slot is still empty.

pub mod error;
pub mod kinds;
pub mod laws;
pub mod provide;
pub mod registry;
