//! State and rules of a scratch pad HTTP client: a list of saved request
//! definitions, a single current selection, and a two-step delete.

pub mod method;
pub mod pad;
pub mod shell;
pub mod laws;
