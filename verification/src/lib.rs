//! Failure classification, structured diagnostics and the apply-verify-retry
//! control loop for a declarative network-configuration engine.
//!
//! The crate models one failure domain: a closed table of failure kinds with a
//! retry/ignore policy, an immutable diagnostic record with two bit-exact text
//! layouts, boundary adapters that normalise foreign failures into the model,
//! a fault-counting facade for emitted snapshot text, and the pure decision
//! core of the apply-verify-retry controller.

mod adapter;
mod controller;
mod error;
mod render;
mod sink;

pub use adapter::from_address_description;
pub use controller::ControllerPhase;
pub use controller::RetryController;
pub use adapter::from_json_description;
pub use adapter::from_json_error;
pub use error::ErrorKind;
pub use error::NmstateError;
pub use sink::snapshot_text;
