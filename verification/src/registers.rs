//! Register sets of the host controller.

pub mod runtime;
