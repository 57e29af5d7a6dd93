use vstd::prelude::*;

pub mod api;
pub mod chapter;
mod common;
pub mod context;
pub mod origin;
pub mod retry;
pub mod throttle;
pub mod title;
pub mod uuid_value;

pub use common::escape_path_string;

verus! {

} // verus!
