//! Deploys a "quick app" package into a local workspace: resolves the
//! deployment target from the invocation parameters, locates the package
//! archive through a remote catalog, and drives the fetch / unpack /
//! finalize pipeline as a verified state machine whose actions an
//! embedding application performs.

pub mod fsmodel;
pub mod lookup;
pub mod params;
pub mod pipeline;
