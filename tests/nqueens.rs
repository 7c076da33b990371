use nqueens::{
    crossover, crossover_at, evaluate, initial_population, max_fitness, mutate, mutate_at,
    new_individual, next_generation, random_individual, select_by_target, select_individual,
    sum_fitness, ConfigError, Generation, GenerationCollector, Individual, MutationRate,
    NQueensSolver,
};

fn scored(genes: Vec<usize>) -> Individual {
    new_individual(genes)
}

fn with_fitness(fitness: usize) -> Individual {
    Individual { genes: vec![0], fitness }
}

fn rate(numerator: u32, denominator: u32) -> MutationRate {
    MutationRate { numerator, denominator }
}

fn changed_positions(a: &[usize], b: &[usize]) -> usize {
    a.iter().zip(b.iter()).filter(|(x, y)| x != y).count()
}

#[test]
fn evaluate_known_solution_of_four() {
    assert_eq!(evaluate(&vec![1, 3, 0, 2]), 6);
    assert_eq!(evaluate(&vec![1, 3, 0, 2]), max_fitness(4));
}

#[test]
fn evaluate_known_solution_of_eight() {
    assert_eq!(evaluate(&vec![0, 4, 7, 5, 2, 6, 1, 3]), 28);
}

#[test]
fn evaluate_same_column_scores_zero() {
    assert_eq!(evaluate(&vec![2, 2, 2, 2]), 0);
}

#[test]
fn evaluate_main_diagonal_scores_zero() {
    assert_eq!(evaluate(&vec![0, 1, 2, 3]), 0);
    assert_eq!(evaluate(&vec![3, 2, 1, 0]), 0);
}

#[test]
fn evaluate_mixed_placement() {
    // Rows 0 and 2 share a column and rows 0 and 3 a diagonal; the other four pairs are free.
    assert_eq!(evaluate(&vec![0, 2, 0, 3]), 4);
}

#[test]
fn evaluate_empty_and_single() {
    assert_eq!(evaluate(&vec![]), 0);
    assert_eq!(evaluate(&vec![0]), 0);
}

#[test]
fn evaluate_stays_within_pair_count() {
    for genes in [vec![0, 0, 0, 0, 0], vec![4, 1, 3, 0, 2], vec![1, 4, 2, 0, 3]] {
        let f = evaluate(&genes);
        assert!(f <= 10);
    }
    assert_eq!(evaluate(&vec![0, 2, 4, 1, 3]), 10);
}

#[test]
fn evaluate_is_deterministic() {
    let genes = vec![5, 1, 4, 0, 2, 7, 3, 6];
    assert_eq!(evaluate(&genes), evaluate(&genes));
    let mut a = scored(genes.clone());
    let before = a.fitness;
    a.calculate_fitness();
    assert_eq!(a.fitness, before);
}

#[test]
fn calculate_fitness_refreshes_stale_value() {
    let mut a = Individual { genes: vec![1, 3, 0, 2], fitness: 0 };
    a.calculate_fitness();
    assert_eq!(a.fitness, 6);
    assert_eq!(a.genes, vec![1, 3, 0, 2]);
}

#[test]
fn max_fitness_values() {
    assert_eq!(max_fitness(0), 0);
    assert_eq!(max_fitness(1), 0);
    assert_eq!(max_fitness(4), 6);
    assert_eq!(max_fitness(7), 21);
    assert_eq!(max_fitness(8), 28);
}

#[test]
fn crossover_at_cut_swaps_tails() {
    let p1 = scored(vec![0, 1, 2, 3]);
    let p2 = scored(vec![3, 2, 1, 0]);
    let (c1, c2) = crossover_at(4, &p1, &p2, 2);
    assert_eq!(c1.genes, vec![0, 1, 1, 0]);
    assert_eq!(c2.genes, vec![3, 2, 2, 3]);
    assert_eq!(c1.fitness, evaluate(&c1.genes));
    assert_eq!(c2.fitness, evaluate(&c2.genes));
}

#[test]
fn crossover_at_zero_cut_swaps_parents() {
    let p1 = scored(vec![1, 3, 0, 2]);
    let p2 = scored(vec![2, 2, 2, 2]);
    let (c1, c2) = crossover_at(4, &p1, &p2, 0);
    assert_eq!(c1.genes, p2.genes);
    assert_eq!(c2.genes, p1.genes);
    assert_eq!(c1.fitness, 0);
    assert_eq!(c2.fitness, 6);
}

#[test]
fn crossover_children_come_from_parents() {
    let p1 = scored(vec![0, 1, 2, 3, 4, 5]);
    let p2 = scored(vec![5, 4, 3, 2, 1, 0]);
    for _ in 0..50 {
        let (c1, c2) = crossover(6, &p1, &p2);
        assert_eq!(c1.genes.len(), 6);
        assert_eq!(c2.genes.len(), 6);
        for i in 0..6 {
            assert!(c1.genes[i] == p1.genes[i] || c1.genes[i] == p2.genes[i]);
            assert!(c2.genes[i] == p1.genes[i] || c2.genes[i] == p2.genes[i]);
            assert_ne!(c1.genes[i], c2.genes[i]);
        }
        assert_eq!(c1.fitness, evaluate(&c1.genes));
    }
}

#[test]
fn mutate_at_sets_one_gene() {
    let mut a = scored(vec![1, 3, 0, 2]);
    mutate_at(&mut a, 4, 2, 3);
    assert_eq!(a.genes, vec![1, 3, 3, 2]);
    assert_eq!(a.fitness, evaluate(&vec![1, 3, 3, 2]));
    assert!(a.fitness < 6);
}

#[test]
fn mutate_with_zero_rate_keeps_candidate() {
    let mut a = scored(vec![1, 3, 0, 2]);
    for _ in 0..50 {
        mutate(&mut a, 4, rate(0, 10));
        assert_eq!(a.genes, vec![1, 3, 0, 2]);
        assert_eq!(a.fitness, 6);
    }
}

#[test]
fn mutate_changes_at_most_one_gene() {
    let mut a = scored(vec![0, 1, 2, 3, 4, 5, 6, 7]);
    for _ in 0..200 {
        let before = a.genes.clone();
        mutate(&mut a, 8, rate(1, 1));
        assert!(changed_positions(&before, &a.genes) <= 1);
        assert!(a.genes.iter().all(|&g| g < 8));
        assert_eq!(a.fitness, evaluate(&a.genes));
    }
}

#[test]
fn sum_fitness_adds_all() {
    let pop = vec![with_fitness(2), with_fitness(0), with_fitness(3)];
    assert_eq!(sum_fitness(&pop), 5);
    assert_eq!(sum_fitness(&vec![]), 0);
}

#[test]
fn select_by_target_walks_cumulative_fitness() {
    let pop = vec![with_fitness(2), with_fitness(0), with_fitness(3)];
    assert_eq!(select_by_target(&pop, 0), 0);
    assert_eq!(select_by_target(&pop, 1), 0);
    assert_eq!(select_by_target(&pop, 2), 2);
    assert_eq!(select_by_target(&pop, 4), 2);
    assert_eq!(select_by_target(&pop, 5), 0);
    assert_eq!(select_by_target(&pop, 99), 0);
}

#[test]
fn select_individual_zero_total_picks_first() {
    let pop = vec![with_fitness(0), with_fitness(0)];
    for _ in 0..20 {
        assert_eq!(select_individual(&pop, 0), 0);
    }
}

#[test]
fn select_individual_skips_zero_fitness() {
    let pop = vec![with_fitness(0), with_fitness(4), with_fitness(0)];
    for _ in 0..50 {
        assert_eq!(select_individual(&pop, 4), 1);
    }
}

#[test]
fn random_individual_genes_in_range() {
    for _ in 0..20 {
        let a = random_individual(6);
        assert_eq!(a.genes.len(), 6);
        assert!(a.genes.iter().all(|&g| g < 6));
        assert_eq!(a.fitness, evaluate(&a.genes));
    }
}

#[test]
fn initial_population_has_requested_size() {
    let pop = initial_population(5, 13);
    assert_eq!(pop.len(), 13);
    for a in &pop {
        assert_eq!(a.genes.len(), 5);
        assert!(a.genes.iter().all(|&g| g < 5));
        assert_eq!(a.fitness, evaluate(&a.genes));
    }
    assert!(initial_population(5, 0).is_empty());
}

#[test]
fn collector_returns_winner() {
    let mut c = GenerationCollector::new(3, 6);
    assert!(c.accept(scored(vec![0, 0, 0, 0])).is_none());
    let winner = c.accept(scored(vec![1, 3, 0, 2])).expect("a solution ends the generation");
    assert_eq!(winner.genes, vec![1, 3, 0, 2]);
    assert_eq!(c.members.len(), 1);
}

#[test]
fn collector_truncates_overflow() {
    let mut c = GenerationCollector::new(2, 6);
    assert!(!c.is_full());
    assert!(c.accept(with_fitness(1)).is_none());
    assert!(c.accept(with_fitness(2)).is_none());
    assert!(c.is_full());
    assert!(c.accept(with_fitness(3)).is_none());
    let pop = c.into_population();
    assert_eq!(pop.iter().map(|a| a.fitness).collect::<Vec<_>>(), vec![1, 2]);
}

#[test]
fn next_generation_keeps_population_size() {
    for size in [1usize, 2, 7, 10] {
        let pop = initial_population(8, 10);
        match next_generation(&pop, 8, rate(1, 10), size) {
            Generation::Solved(w) => assert_eq!(w.fitness, 28),
            Generation::Next(next) => {
                assert_eq!(next.len(), size);
                assert!(next.iter().all(|a| a.fitness < 28 && a.genes.len() == 8));
            }
        }
    }
}

#[test]
fn next_generation_single_row_solves_at_once() {
    let pop = initial_population(1, 3);
    match next_generation(&pop, 1, rate(1, 10), 3) {
        Generation::Solved(w) => assert_eq!(w.genes, vec![0]),
        Generation::Next(_) => panic!("a one-row board is solved by any candidate"),
    }
}

#[test]
fn new_rejects_empty_board() {
    assert_eq!(NQueensSolver::new(0, 10, rate(1, 10), 5).err(), Some(ConfigError::EmptyBoard));
}

#[test]
fn new_rejects_empty_population() {
    assert_eq!(
        NQueensSolver::new(8, 0, rate(1, 10), 5).err(),
        Some(ConfigError::EmptyPopulation)
    );
}

#[test]
fn new_rejects_invalid_mutation_rate() {
    assert_eq!(
        NQueensSolver::new(8, 10, rate(3, 2), 5).err(),
        Some(ConfigError::InvalidMutationRate)
    );
    assert_eq!(
        NQueensSolver::new(8, 10, rate(0, 0), 5).err(),
        Some(ConfigError::InvalidMutationRate)
    );
}

#[test]
fn new_keeps_configuration() {
    let s = NQueensSolver::new(8, 100, rate(1, 10), 2000).expect("valid configuration");
    assert_eq!(s.n, 8);
    assert_eq!(s.max_fitness, 28);
    assert_eq!(s.population_size, 100);
    assert_eq!(s.mutation_rate, rate(1, 10));
    assert_eq!(s.generation_limit, 2000);
}

#[test]
fn run_single_row_solves_in_first_generation() {
    let mut s = NQueensSolver::new(1, 1, rate(1, 10), 10).expect("valid configuration");
    let (w, generation) = s.run().expect("a one-row board is solved at once");
    assert_eq!(generation, 0);
    assert_eq!(w.genes, vec![0]);
    assert_eq!(w.fitness, 0);
}

#[test]
fn run_without_generations_finds_nothing() {
    let mut s = NQueensSolver::new(8, 10, rate(1, 10), 0).expect("valid configuration");
    assert!(s.run().is_none());
}

#[test]
fn run_solves_eight_queens() {
    // The search is stochastic: a single run may stall, so the property is checked over
    // repeated independent trials, and every solution reported must be a real one.
    let mut solved = false;
    for _ in 0..10 {
        let mut s = NQueensSolver::new(8, 200, rate(1, 10), 2000).expect("valid configuration");
        if let Some((w, generation)) = s.run() {
            assert!(generation < 2000);
            assert_eq!(w.genes.len(), 8);
            assert_eq!(w.fitness, 28);
            assert_eq!(evaluate(&w.genes), 28);
            solved = true;
            break;
        }
    }
    assert!(solved, "eight queens are placed within the limit in one of the trials");
}

#[test]
fn evaluate_ignores_row_order_reversal() {
    for genes in [vec![0, 2, 0, 3], vec![5, 1, 4, 0, 2, 7, 3, 6], vec![1, 1, 3, 0, 4]] {
        let mut back = genes.clone();
        back.reverse();
        assert_eq!(evaluate(&genes), evaluate(&back));
    }
}
