use vstd::prelude::*;

pub mod config;
pub mod dimmer;
pub mod discovery;
pub mod mqtt;
pub mod number;
pub mod state;
pub mod yaml;

verus! {
} // verus!
