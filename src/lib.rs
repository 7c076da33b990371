//! A genetic search for placements of N non-attacking queens on an N x N board.
pub mod board;
pub mod operators;
pub mod pipeline;
mod random;
pub mod solver;

pub use board::{evaluate, max_fitness, Individual};
pub use operators::{
    crossover, crossover_at, initial_population, mutate, mutate_at, new_individual,
    random_individual, select_by_target, select_individual, sum_fitness, MutationRate,
};
pub use pipeline::{next_generation, Generation, GenerationCollector};
pub use solver::{ConfigError, NQueensSolver};
