//! An iterated Prisoner's Dilemma tournament: a payoff model, a closed set of
//! strategies, a match engine, and an Elo-style rating pool.
use vstd::prelude::*;

pub mod game;
pub mod player;
pub mod pool;
pub mod random;
pub mod weights;

pub use game::{play, Score};
pub use player::{Player, PlayerFactory};
pub use pool::{EloPool, EloPoolConfig, Game, PoolError};
pub use weights::{Choice, Weights};

verus! {

} // verus!
