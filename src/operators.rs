use crate::board::{evaluate, fitness_of, pair_count, Individual};
use crate::random::{generate_random, random_ratio};
use vstd::prelude::*;

verus! {

/// The sum of the fitness of the first `k` members of a population.
pub open spec fn cumulative(pop: Seq<Individual>, k: int) -> nat
    decreases k,
{
    if k <= 0 {
        0
    } else {
        cumulative(pop, k - 1) + pop[k - 1].fitness as nat
    }
}

/// The sum of the fitness of a whole population.
pub open spec fn total_fitness(pop: Seq<Individual>) -> nat {
    cumulative(pop, pop.len() as int)
}

/// Every member of `pop` is a well-formed candidate for an `n`-wide board.
pub open spec fn all_wf(pop: Seq<Individual>, n: nat) -> bool {
    forall|k: int| 0 <= k < pop.len() ==> #[trigger] pop[k].wf(n)
}

/// The genes of `a` for the rows before `cut` and those of `b` from `cut` on.
pub open spec fn splice(a: Seq<usize>, b: Seq<usize>, cut: int) -> Seq<usize> {
    Seq::new(a.len(), |i: int| if i < cut { a[i] } else { b[i] })
}

/// `a` and `b` have one length and differ in at most one position.
pub open spec fn at_most_one_change(a: Seq<usize>, b: Seq<usize>) -> bool {
    &&& a.len() == b.len()
    &&& forall|i: int, j: int| 0 <= i < j < a.len() ==> a[i] == b[i] || a[j] == b[j]
}

pub proof fn lemma_cumulative_monotone(pop: Seq<Individual>, a: int, b: int)
    requires
        a <= b,
    ensures
        cumulative(pop, a) <= cumulative(pop, b),
    decreases b - a,
{
    if a < b {
        lemma_cumulative_monotone(pop, a, b - 1);
    }
}

/// A sum of `k` fitness values, each at most `m`, is at most `k * m`.
pub proof fn lemma_cumulative_bound(pop: Seq<Individual>, k: int, m: nat)
    requires
        0 <= k <= pop.len(),
        forall|i: int| 0 <= i < k ==> #[trigger] pop[i].fitness <= m,
    ensures
        cumulative(pop, k) <= k * m,
    decreases k,
{
    if k > 0 {
        lemma_cumulative_bound(pop, k - 1, m);
        assert((k - 1) * m + m == k * m) by (nonlinear_arith);
    }
}

/// Crossover at any cut keeps the length of the parents, and every gene of a child is the
/// gene of one of the parents at the same row.
pub proof fn lemma_splice_genes(a: Seq<usize>, b: Seq<usize>, cut: int)
    requires
        a.len() == b.len(),
    ensures
        splice(a, b, cut).len() == a.len(),
        splice(b, a, cut).len() == a.len(),
        forall|i: int|
            0 <= i < a.len() ==> (#[trigger] splice(a, b, cut)[i] == a[i] || splice(a, b, cut)[i]
                == b[i]),
        forall|i: int|
            0 <= i < a.len() ==> (#[trigger] splice(b, a, cut)[i] == a[i] || splice(b, a, cut)[i]
                == b[i]),
{
}

/// The chance that a child mutates: `numerator` in `denominator`.
#[derive(Debug, Clone, Copy, PartialEq, Eq, Structural)]
pub struct MutationRate {
    pub numerator: u32,
    pub denominator: u32,
}

impl MutationRate {
    /// The rate is a probability: a ratio in `[0, 1]` with a positive denominator.
    pub open spec fn wf(&self) -> bool {
        0 < self.denominator && self.numerator <= self.denominator
    }
}

/// Scores `genes` as a new candidate.
pub fn new_individual(genes: Vec<usize>) -> (r: Individual)
    requires
        pair_count(genes@.len()) <= usize::MAX,
    ensures
        r.genes == genes,
        r.fitness == fitness_of(genes@),
{
    let fitness = evaluate(&genes);
    Individual { genes, fitness }
}

/// A candidate for an `n`-wide board with every gene drawn from `[0, n)`.
pub fn random_individual(n: usize) -> (r: Individual)
    requires
        n > 0,
        pair_count(n as nat) <= usize::MAX,
    ensures
        r.wf(n as nat),
{
    let mut genes: Vec<usize> = Vec::new();
    let mut k: usize = 0;
    while k < n
        invariant
            k <= n,
            genes@.len() == k,
            forall|i: int| 0 <= i < k ==> genes@[i] < n,
        decreases n - k,
    {
        genes.push(generate_random(n));
        k = k + 1;
    }
    new_individual(genes)
}

/// A population of `population_size` random candidates for an `n`-wide board.
pub fn initial_population(n: usize, population_size: usize) -> (r: Vec<Individual>)
    requires
        n > 0,
        pair_count(n as nat) <= usize::MAX,
    ensures
        r@.len() == population_size,
        all_wf(r@, n as nat),
{
    let mut population: Vec<Individual> = Vec::new();
    let mut k: usize = 0;
    while k < population_size
        invariant
            k <= population_size,
            population@.len() == k,
            pair_count(n as nat) <= usize::MAX,
            n > 0,
            all_wf(population@, n as nat),
        decreases population_size - k,
    {
        let individual = random_individual(n);
        population.push(individual);
        k = k + 1;
    }
    population
}

/// The sum of the fitness of all members of `population`.
pub fn sum_fitness(population: &Vec<Individual>) -> (r: usize)
    requires
        total_fitness(population@) <= usize::MAX,
    ensures
        r == total_fitness(population@),
{
    let mut sum: usize = 0;
    let mut k: usize = 0;
    while k < population.len()
        invariant
            k <= population@.len(),
            total_fitness(population@) <= usize::MAX,
            sum == cumulative(population@, k as int),
        decreases population@.len() - k,
    {
        proof {
            lemma_cumulative_monotone(population@, k as int + 1, population@.len() as int);
        }
        sum = sum + population[k].fitness;
        k = k + 1;
    }
    sum
}

/// The roulette-wheel pick for `target`: the first member whose cumulative fitness
/// exceeds `target`, or the first member when none does.
pub fn select_by_target(population: &Vec<Individual>, target: usize) -> (r: usize)
    requires
        population@.len() > 0,
        total_fitness(population@) <= usize::MAX,
    ensures
        r < population@.len(),
        target < total_fitness(population@) ==> cumulative(population@, r as int) <= target
            < cumulative(population@, r as int + 1),
        target >= total_fitness(population@) ==> r == 0,
{
    let mut cumulative_fitness: usize = 0;
    let mut k: usize = 0;
    while k < population.len()
        invariant
            k <= population@.len(),
            total_fitness(population@) <= usize::MAX,
            cumulative_fitness == cumulative(population@, k as int),
            cumulative_fitness <= target,
        decreases population@.len() - k,
    {
        proof {
            lemma_cumulative_monotone(population@, k as int + 1, population@.len() as int);
        }
        cumulative_fitness = cumulative_fitness + population[k].fitness;
        if cumulative_fitness > target {
            return k;
        }
        k = k + 1;
    }
    0
}

/// Draws a member of `population` with probability proportional to its fitness; with a
/// total fitness of zero, the first member.
pub fn select_individual(population: &Vec<Individual>, total: usize) -> (r: usize)
    requires
        population@.len() > 0,
        total == total_fitness(population@),
    ensures
        r < population@.len(),
        total == 0 ==> r == 0,
        total > 0 ==> population@[r as int].fitness > 0,
{
    if total == 0 {
        return 0;
    }
    let target = generate_random(total);
    select_by_target(population, target)
}

/// Single-point crossover at `cut`: the first child takes `parent1`'s genes before `cut`
/// and `parent2`'s from `cut` on, the second child the other way round.
pub fn crossover_at(n: usize, parent1: &Individual, parent2: &Individual, cut: usize) -> (r: (
    Individual,
    Individual,
))
    requires
        parent1.wf(n as nat),
        parent2.wf(n as nat),
        pair_count(n as nat) <= usize::MAX,
    ensures
        r.0.wf(n as nat),
        r.1.wf(n as nat),
        r.0.genes@ == splice(parent1.genes@, parent2.genes@, cut as int),
        r.1.genes@ == splice(parent2.genes@, parent1.genes@, cut as int),
{
    let mut genes1: Vec<usize> = Vec::with_capacity(n);
    let mut genes2: Vec<usize> = Vec::with_capacity(n);
    let mut i: usize = 0;
    while i < n
        invariant
            i <= n,
            parent1.wf(n as nat),
            parent2.wf(n as nat),
            genes1@ == splice(parent1.genes@, parent2.genes@, cut as int).subrange(0, i as int),
            genes2@ == splice(parent2.genes@, parent1.genes@, cut as int).subrange(0, i as int),
        decreases n - i,
    {
        if i < cut {
            genes1.push(parent1.genes[i]);
            genes2.push(parent2.genes[i]);
        } else {
            genes1.push(parent2.genes[i]);
            genes2.push(parent1.genes[i]);
        }
        i = i + 1;
    }
    assert(genes1@ == splice(parent1.genes@, parent2.genes@, cut as int));
    assert(genes2@ == splice(parent2.genes@, parent1.genes@, cut as int));
    (new_individual(genes1), new_individual(genes2))
}

/// Single-point crossover at a cut drawn from `[0, n)`. Both children have `n` genes,
/// each taken from one of the parents at the same row.
pub fn crossover(n: usize, parent1: &Individual, parent2: &Individual) -> (r: (
    Individual,
    Individual,
))
    requires
        n > 0,
        parent1.wf(n as nat),
        parent2.wf(n as nat),
        pair_count(n as nat) <= usize::MAX,
    ensures
        r.0.wf(n as nat),
        r.1.wf(n as nat),
        exists|cut: int|
            0 <= cut < n && r.0.genes@ == splice(parent1.genes@, parent2.genes@, cut)
                && r.1.genes@ == splice(parent2.genes@, parent1.genes@, cut),
        forall|i: int|
            0 <= i < n ==> (r.0.genes@[i] == parent1.genes@[i] || r.0.genes@[i]
                == parent2.genes@[i]) && (r.1.genes@[i] == parent1.genes@[i] || r.1.genes@[i]
                == parent2.genes@[i]),
{
    let cut = generate_random(n);
    crossover_at(n, parent1, parent2, cut)
}

/// Sets the gene of row `point` to `value` and rescores the candidate.
pub fn mutate_at(individual: &mut Individual, n: usize, point: usize, value: usize)
    requires
        old(individual).wf(n as nat),
        point < n,
        value < n,
        pair_count(n as nat) <= usize::MAX,
    ensures
        final(individual).wf(n as nat),
        final(individual).genes@ == old(individual).genes@.update(point as int, value),
{
    individual.genes.set(point, value);
    individual.calculate_fitness();
}

/// With probability `rate`, replaces one gene drawn from `[0, n)` by a value drawn from
/// `[0, n)` and rescores the candidate; otherwise leaves it as it is.
pub fn mutate(individual: &mut Individual, n: usize, rate: MutationRate)
    requires
        n > 0,
        old(individual).wf(n as nat),
        rate.wf(),
        pair_count(n as nat) <= usize::MAX,
    ensures
        final(individual).wf(n as nat),
        at_most_one_change(old(individual).genes@, final(individual).genes@),
        final(individual).genes@ == old(individual).genes@ || exists|k: int, v: usize|
            0 <= k < n && v < n && final(individual).genes@
                == old(individual).genes@.update(k, v),
        rate.numerator == 0 ==> *final(individual) == *old(individual),
        rate.numerator == rate.denominator ==> exists|k: int, v: usize|
            0 <= k < n && v < n && final(individual).genes@
                == old(individual).genes@.update(k, v),
{
    if random_ratio(rate.numerator, rate.denominator) {
        let point = generate_random(n);
        let value = generate_random(n);
        mutate_at(individual, n, point, value);
    }
}

} // verus!
