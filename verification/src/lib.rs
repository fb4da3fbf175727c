//! Client-side orchestration of field-level document encryption.
//!
//! A [`context::Context`] drives one encrypt or decrypt operation through a
//! fixed protocol of exchanges with a metadata source, a query-analysis
//! service and key management endpoints. The crate owns the protocol: which
//! call is legal in which state, how key management replies are counted, and
//! how failures end an operation. It performs no cryptography and no I/O;
//! payloads are byte buffers, and the verdicts of the cryptographic engine
//! enter as plain values.

pub mod binary;
pub mod context;
pub mod demand;
pub mod document;
pub mod driver;
pub mod kms;
pub mod log;
pub mod state;
pub mod status;
