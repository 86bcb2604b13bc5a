pub mod calendar;
pub mod periodicity;
pub mod validate;
pub mod resolve;
pub mod builder;
pub mod continents;
pub mod security;
pub mod task;
pub mod user;

use vstd::prelude::*;

verus! {

} // verus!
