//! Integer core of a small feedforward-network engine: a deterministic
//! pseudo-random source, the fixed draw order of parameter initialization,
//! and the dimension checks that guard inference and training.

pub mod dimensions;
pub mod initialization;
pub mod simple_rng;
