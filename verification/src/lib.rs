//! Core of an OAuth token-refresh service.
//!
//! Given one connection and a declarative provider definition, the library
//! derives the provider-specific refresh request, reconciles the provider's
//! (possibly partial) response with the stored credential, and produces the
//! updated credential and connection state.  All I/O (document store, secret
//! store, HTTP) is performed by the caller, which drives the orchestrator
//! state machine in `orchestrator` by executing the actions it emits and
//! feeding the resulting events back in.

pub mod compute;
pub mod definition;
pub mod json;
pub mod laws;
pub mod orchestrator;
pub mod outcome;
pub mod secret;
pub mod template;
