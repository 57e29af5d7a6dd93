//! The remote service's response shapes, as plain values: what the logic
//! reads out of the payloads the collaborators parse at the I/O edge.

pub mod at_home;
pub mod chapter;
pub mod manga;
