use vstd::prelude::*;

pub mod text;
pub mod utils;
pub mod hex;
pub mod models;
pub mod backend;
pub mod message;
pub mod ui;

verus! {

} // verus!
