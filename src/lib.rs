use vstd::prelude::*;

pub mod datetime;
pub mod row;
pub mod config;
pub mod demo;

verus! {

} // verus!
