//! A verified wagering arena: two parties stake equal value on the outcome of
//! a commit-reveal game, and the arena settles the pot and updates a global
//! skill rating.
//!
//! Two games are supported: a best-of-three round game with three discrete
//! choices under a cyclic dominance relation, and a single-shot binary coin
//! flip. Both derive fairness from a commit-reveal protocol: each party binds
//! itself to a hidden value with a one-way hash before either value is
//! disclosed.

pub mod arena;
pub mod coin_flip;
pub mod commitment;
pub mod errors;
pub mod round;
pub mod rps;
pub mod settlement;
