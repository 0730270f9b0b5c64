//! Verified core of a Thermo RAW file extraction library.
//!
//! The library decodes the mzML metadata fragments emitted by the foreign
//! parsing engine, derives per-scan fields with their documented fallback
//! rules, and drives the lifecycle and streaming decisions around the
//! engine.  The engine itself (an embedded managed runtime) is foreign
//! code: every call into it is made by the unverified host shell, which
//! hands the outcomes to the functions of this crate as plain values.

pub mod errors;
pub mod mono;
pub mod mzml;
pub mod mzml_spectrum;
pub mod streamer;
pub mod textnum;
pub mod xml;

pub use errors::RawFileError;
