//! A small directory of users and their skills and interests, kept as one
//! document that is loaded whole, changed in memory and written back whole.
//!
//! The library holds the records, the rules of every store operation and the
//! decisions around loading and saving. Reading and writing the file, the JSON
//! text form and the C-callable surface are left to the host.
use vstd::prelude::*;

pub mod boundary;
pub mod config;
pub mod laws;
pub mod model;
pub mod ops;
pub mod store;
pub mod text;

verus! {

} // verus!
