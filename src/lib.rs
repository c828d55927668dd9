//! An adaptive contract engine: a registry of contracts carrying a numeric
//! threshold, fed signed observations by authorized oracles, which deactivate
//! themselves once an observation's magnitude reaches their threshold.
use vstd::prelude::*;

pub mod engine;
pub mod evaluator;
pub mod laws;
pub mod state;
pub mod types;

verus! {

} // verus!
