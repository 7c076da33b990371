use crate::board::{lemma_fitness_bound, max_fitness, pair_count, Individual};
use crate::operators::{
    all_wf, crossover, lemma_cumulative_bound, mutate, select_individual, sum_fitness,
    total_fitness, MutationRate,
};
use vstd::prelude::*;

verus! {

/// Assembles the next population from finished candidates as they arrive, and stops at
/// the first candidate of maximal fitness.
pub struct GenerationCollector {
    /// The size of the population being assembled.
    pub size: usize,
    /// The fitness that marks a solution.
    pub max_fitness: usize,
    /// The candidates kept so far, in order of arrival.
    pub members: Vec<Individual>,
}

impl GenerationCollector {
    /// An empty collector for a population of `size` candidates.
    pub fn new(size: usize, max_fitness: usize) -> (r: GenerationCollector)
        ensures
            r.size == size,
            r.max_fitness == max_fitness,
            r.members@.len() == 0,
    {
        GenerationCollector { size, max_fitness, members: Vec::new() }
    }

    /// The collector holds a whole population.
    pub fn is_full(&self) -> (r: bool)
        ensures
            r == (self.members@.len() >= self.size),
    {
        self.members.len() >= self.size
    }

    /// Takes one finished candidate. A candidate of maximal fitness is handed back as the
    /// solution; any other is kept while there is room and dropped once the population
    /// is full.
    pub fn accept(&mut self, candidate: Individual) -> (r: Option<Individual>)
        ensures
            final(self).size == old(self).size,
            final(self).max_fitness == old(self).max_fitness,
            candidate.fitness == old(self).max_fitness ==> r == Some(candidate)
                && final(self).members@ == old(self).members@,
            candidate.fitness != old(self).max_fitness ==> r.is_none()
                && final(self).members@ == if old(self).members@.len() < old(self).size {
                old(self).members@.push(candidate)
            } else {
                old(self).members@
            },
    {
        if candidate.fitness == self.max_fitness {
            return Some(candidate);
        }
        if self.members.len() < self.size {
            self.members.push(candidate);
        }
        None
    }

    /// The candidates kept, in order of arrival.
    pub fn into_population(self) -> (r: Vec<Individual>)
        ensures
            r@ == self.members@,
    {
        self.members
    }
}

/// What one generation yields: a solution, or the population of the next generation.
pub enum Generation {
    Solved(Individual),
    Next(Vec<Individual>),
}

/// The board and the population are small enough for every sum of fitness values to fit
/// in a `usize`.
pub open spec fn fits(n: nat, population_size: nat) -> bool {
    &&& pair_count(n) <= usize::MAX
    &&& population_size * pair_count(n) <= usize::MAX
}

/// Runs one generation: pairs of parents are drawn by roulette wheel, crossed over and
/// mutated, and each child is handed to a collector of `population_size` candidates.
/// The first child of maximal fitness ends the generation as its solution; otherwise the
/// children make up the next population, exactly `population_size` of them.
pub fn next_generation(
    population: &Vec<Individual>,
    n: usize,
    rate: MutationRate,
    population_size: usize,
) -> (r: Generation)
    requires
        n > 0,
        population@.len() > 0,
        all_wf(population@, n as nat),
        rate.wf(),
        fits(n as nat, population@.len()),
    ensures
        match r {
            Generation::Solved(w) => w.wf(n as nat) && w.fitness == pair_count(n as nat),
            Generation::Next(p) => {
                &&& p@.len() == population_size
                &&& all_wf(p@, n as nat)
                &&& forall|k: int| 0 <= k < p@.len() ==> #[trigger] p@[k].fitness < pair_count(n as nat)
            },
        },
        population_size > 0 && pair_count(n as nat) == 0 ==> r is Solved,
{
    let max_fitness = max_fitness(n);
    proof {
        assert forall|i: int| 0 <= i < population@.len() implies #[trigger] population@[i].fitness
            <= pair_count(n as nat) by {
            assert(population@[i].wf(n as nat));
            lemma_fitness_bound(population@[i].genes@);
        }
        lemma_cumulative_bound(population@, population@.len() as int, pair_count(n as nat));
        assert(population@.len() * pair_count(n as nat) == pair_count(n as nat) * population@.len()) by (nonlinear_arith);
    }
    let total = sum_fitness(population);
    let mut collector = GenerationCollector::new(population_size, max_fitness);
    while !collector.is_full()
        invariant
            n > 0,
            population@.len() > 0,
            all_wf(population@, n as nat),
            rate.wf(),
            pair_count(n as nat) <= usize::MAX,
            total == total_fitness(population@),
            max_fitness == pair_count(n as nat),
            collector.size == population_size,
            collector.max_fitness == max_fitness,
            collector.members@.len() <= population_size,
            all_wf(collector.members@, n as nat),
            forall|k: int|
                0 <= k < collector.members@.len() ==> #[trigger] collector.members@[k].fitness
                    < max_fitness,
        decreases population_size - collector.members@.len(),
    {
        let i1 = select_individual(population, total);
        let i2 = select_individual(population, total);
        let (mut child1, mut child2) = crossover(n, &population[i1], &population[i2]);
        mutate(&mut child1, n, rate);
        mutate(&mut child2, n, rate);
        proof {
            lemma_fitness_bound(child1.genes@);
            lemma_fitness_bound(child2.genes@);
        }
        if let Some(winner) = collector.accept(child1) {
            return Generation::Solved(winner);
        }
        if let Some(winner) = collector.accept(child2) {
            return Generation::Solved(winner);
        }
    }
    proof {
        if population_size > 0 {
            assert(collector.members@[0].fitness < max_fitness);
        }
    }
    Generation::Next(collector.into_population())
}

} // verus!
