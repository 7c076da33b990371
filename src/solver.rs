use crate::board::{max_fitness, pair_count, Individual};
use crate::operators::{initial_population, MutationRate};
use crate::pipeline::{fits, next_generation, Generation};
use vstd::prelude::*;

verus! {

/// Why a solver configuration was rejected.
#[derive(Debug, Clone, Copy, PartialEq, Eq, Structural)]
pub enum ConfigError {
    /// The board has no rows.
    EmptyBoard,
    /// The population has no candidates.
    EmptyPopulation,
    /// The mutation rate is not a probability.
    InvalidMutationRate,
}

/// A genetic search for an `n`-queens placement.
pub struct NQueensSolver {
    /// The width and height of the board.
    pub n: usize,
    /// The fitness that marks a solution, `n * (n - 1) / 2`.
    pub max_fitness: usize,
    /// The number of candidates in each generation.
    pub population_size: usize,
    /// The chance that a child mutates.
    pub mutation_rate: MutationRate,
    /// The number of generations searched at most.
    pub generation_limit: usize,
}

impl NQueensSolver {
    /// A validated configuration.
    pub open spec fn wf(&self) -> bool {
        &&& self.n > 0
        &&& self.population_size > 0
        &&& self.mutation_rate.wf()
        &&& fits(self.n as nat, self.population_size as nat)
        &&& self.max_fitness == pair_count(self.n as nat)
    }

    /// Validates a configuration: the board and the population must not be empty and the
    /// mutation rate must be a probability.
    pub fn new(
        n: usize,
        population_size: usize,
        mutation_rate: MutationRate,
        generation_limit: usize,
    ) -> (r: Result<NQueensSolver, ConfigError>)
        requires
            fits(n as nat, population_size as nat),
        ensures
            n == 0 ==> r == Err::<NQueensSolver, ConfigError>(ConfigError::EmptyBoard),
            n > 0 && population_size == 0 ==> r == Err::<NQueensSolver, ConfigError>(
                ConfigError::EmptyPopulation,
            ),
            n > 0 && population_size > 0 && !mutation_rate.wf() ==> r == Err::<
                NQueensSolver,
                ConfigError,
            >(ConfigError::InvalidMutationRate),
            n > 0 && population_size > 0 && mutation_rate.wf() ==> (r matches Ok(s) && s.wf()
                && s.n == n && s.population_size == population_size
                && s.mutation_rate == mutation_rate && s.generation_limit
                == generation_limit),
    {
        if n == 0 {
            return Err(ConfigError::EmptyBoard);
        }
        if population_size == 0 {
            return Err(ConfigError::EmptyPopulation);
        }
        if mutation_rate.denominator == 0 || mutation_rate.numerator > mutation_rate.denominator {
            return Err(ConfigError::InvalidMutationRate);
        }
        let max_fitness = max_fitness(n);
        Ok(NQueensSolver { n, max_fitness, population_size, mutation_rate, generation_limit })
    }

    /// Searches generation after generation, from a random population, until a child of
    /// maximal fitness appears or the generation limit is reached. Returns the solution
    /// and the index of the generation that produced it, or `None` when the limit ran out.
    pub fn run(&mut self) -> (r: Option<(Individual, usize)>)
        requires
            old(self).wf(),
        ensures
            *final(self) == *old(self),
            (r matches Some((w, g)) ==> w.wf(old(self).n as nat) && w.fitness == pair_count(
                old(self).n as nat,
            ) && g < old(self).generation_limit),
            old(self).n == 1 && old(self).generation_limit > 0 ==> (r matches Some((_, g))
                && g == 0),
    {
        let n = self.n;
        let mut population = initial_population(n, self.population_size);
        let mut generation: usize = 0;
        while generation < self.generation_limit
            invariant
                self.wf(),
                n == self.n,
                population@.len() == self.population_size,
                crate::operators::all_wf(population@, n as nat),
                n == 1 ==> generation == 0,
            decreases self.generation_limit - generation,
        {
            proof {
                assert(pair_count(1) == 0) by {
                    reveal_with_fuel(pair_count, 2);
                }
            }
            match next_generation(&population, n, self.mutation_rate, self.population_size) {
                Generation::Solved(winner) => {
                    return Some((winner, generation));
                },
                Generation::Next(next) => {
                    population = next;
                },
            }
            generation = generation + 1;
        }
        None
    }
}

} // verus!
