//! A bounded, elastic pool of database connections.
//!
//! `pool::MyInnerPool` is the state that a pool keeps under its lock: idle
//! connections, the bounds `min` and `max`, and the number of live
//! connections. Its operations are the steps of the pool's protocols
//! (construction, checkout, release); the blocking and locking around them
//! belong to the caller. `model` states the sizing policy over counts alone,
//! with the laws that follow from it.

pub mod error;
pub mod model;
pub mod pool;
