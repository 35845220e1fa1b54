//! The orchestration core of a node: components that each consume one event at a time and answer
//! with deferred effects, and the reactors that own the components and route events to them.

pub mod components;
pub mod crypto;
pub mod effect;
pub mod reactor;
pub mod rng;
pub mod types;
pub mod utils;

pub use rng::NodeRng;
