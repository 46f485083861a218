//! A component-side bridge to a background worker: one connection per
//! component instance, created on the first render pass and kept for the
//! instance's whole life, with an output handler that every pass refreshes.

pub mod laws;
pub mod session;
pub mod slot;
