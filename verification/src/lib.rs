//! An interface-driven RPC layer over a durable, per-key counter service.
//!
//! A service is described by an explicit schema (a named set of methods,
//! each Exclusive or Shared with respect to a per-instance key). From that
//! schema the library derives the wire requests a client must send and
//! classifies the responses it receives; the durable counter handler itself
//! is modelled as a keyed state machine with proved bookkeeping laws.

pub mod api;
pub mod client;
pub mod counter;
pub mod greeter;
pub mod interface;
pub mod wire;

pub use api::AppState;
