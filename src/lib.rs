use vstd::prelude::*;

pub mod corpus;
pub mod events;
pub mod manager;
pub mod sink;

verus! {

} // verus!
