//! Typed data model and orchestration logic of an end-to-end conformance run
//! between a device and a server exchanging data through a message hub.
//!
//! - [`value`]: dynamically typed values of a generic aggregate.
//! - [`aggregate`]: the generic aggregate, an ordered mapping with unique names.
//! - [`record`]: the fourteen-endpoint catalog, the typed record, its fixture,
//!   and the lossless conversions between record and aggregate.
//! - [`codec`]: tagged encodings of 64-bit integers and blobs.
//! - [`interfaces`]: names and object paths of the exchanged interfaces.
//! - [`checks`]: comparisons of what was observed against what was expected.
//! - [`retry`]: bounded retry of eventually consistent checks.
//! - [`sequencer`]: the state machine that orders the phases of a run; a runner
//!   performs each action it asks for and hands back the outcome.
pub mod aggregate;
pub mod checks;
pub mod codec;
pub mod interfaces;
pub mod record;
pub mod retry;
pub mod sequencer;
pub mod value;
