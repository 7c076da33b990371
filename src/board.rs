use vstd::prelude::*;

verus! {

/// The number of unordered pairs among `n` rows: `n * (n - 1) / 2`.
pub open spec fn pair_count(n: nat) -> nat
    decreases n,
{
    if n == 0 {
        0
    } else {
        pair_count((n - 1) as nat) + (n - 1) as nat
    }
}

/// The queens of rows `i` and `j` (with `i < j`) share neither a column nor a diagonal.
pub open spec fn non_attacking(g: Seq<usize>, i: int, j: int) -> bool {
    &&& g[i] != g[j]
    &&& g[i] - g[j] != j - i
    &&& g[j] - g[i] != j - i
}

/// The number of rows `j` with `i < j < end` whose queen does not attack the queen of row `i`.
pub open spec fn row_score(g: Seq<usize>, i: int, end: int) -> nat
    decreases end - i,
{
    if end <= i + 1 {
        0
    } else {
        row_score(g, i, end - 1) + if non_attacking(g, i, end - 1) { 1nat } else { 0nat }
    }
}

/// The number of non-attacking pairs `(i, j)` with `i < rows` and `i < j < end`.
pub open spec fn score_upto(g: Seq<usize>, rows: int, end: int) -> nat
    decreases rows,
{
    if rows <= 0 {
        0
    } else {
        score_upto(g, rows - 1, end) + row_score(g, rows - 1, end)
    }
}

/// The fitness of a gene sequence: how many unordered pairs of rows hold non-attacking queens.
pub open spec fn fitness_of(g: Seq<usize>) -> nat {
    score_upto(g, g.len() as int, g.len() as int)
}

pub proof fn lemma_row_score_bound(g: Seq<usize>, i: int, end: int)
    requires
        0 <= i,
    ensures
        end <= i + 1 ==> row_score(g, i, end) == 0,
        end > i + 1 ==> row_score(g, i, end) <= end - i - 1,
    decreases end - i,
{
    if end > i + 1 {
        lemma_row_score_bound(g, i, end - 1);
    }
}

pub proof fn lemma_pair_count_step(n: nat)
    ensures
        pair_count(n + 1) == pair_count(n) + n,
{
}

/// The rows before `rows` contribute at most the pairs they open.
pub proof fn lemma_score_upto_bound(g: Seq<usize>, rows: int)
    requires
        0 <= rows <= g.len(),
    ensures
        score_upto(g, rows, g.len() as int) + pair_count((g.len() - rows) as nat)
            <= pair_count(g.len()),
    decreases rows,
{
    if rows > 0 {
        lemma_score_upto_bound(g, rows - 1);
        lemma_row_score_bound(g, rows - 1, g.len() as int);
        lemma_pair_count_step((g.len() - rows) as nat);
    }
}

/// No gene sequence scores above the number of its row pairs.
pub proof fn lemma_fitness_bound(g: Seq<usize>)
    ensures
        fitness_of(g) <= pair_count(g.len()),
{
    lemma_score_upto_bound(g, g.len() as int);
}

/// Whether a pair of rows is attacking does not depend on the order in which the two
/// rows are compared.
pub proof fn lemma_non_attacking_symmetric(g: Seq<usize>, i: int, j: int)
    ensures
        non_attacking(g, i, j) == non_attacking(g, j, i),
{
}

/// The number of rows `i < k` whose queen does not attack the queen of row `j`.
pub open spec fn column_score(g: Seq<usize>, j: int, k: int) -> nat
    decreases k,
{
    if k <= 0 {
        0
    } else {
        column_score(g, j, k - 1) + if non_attacking(g, k - 1, j) { 1nat } else { 0nat }
    }
}

/// The non-attacking pairs among the first `cols` rows, counted column by column: for
/// each row `j`, the earlier rows it is paired with.
pub open spec fn score_by_columns(g: Seq<usize>, cols: int) -> nat
    decreases cols,
{
    if cols <= 0 {
        0
    } else {
        score_by_columns(g, cols - 1) + column_score(g, cols - 1, cols - 1)
    }
}

proof fn lemma_score_upto_extend(g: Seq<usize>, rows: int, end: int)
    requires
        0 <= rows <= end,
    ensures
        score_upto(g, rows, end + 1) == score_upto(g, rows, end) + column_score(g, end, rows),
    decreases rows,
{
    if rows > 0 {
        lemma_score_upto_extend(g, rows - 1, end);
    }
}

proof fn lemma_prefix_order_independent(g: Seq<usize>, e: int)
    requires
        0 <= e,
    ensures
        score_upto(g, e, e) == score_by_columns(g, e),
    decreases e,
{
    if e > 0 {
        lemma_prefix_order_independent(g, e - 1);
        lemma_score_upto_extend(g, e - 1, e - 1);
    }
}

/// The fitness does not depend on the order in which the pairs are compared: counting
/// row by row (each row against the later ones) and column by column (each row against
/// the earlier ones) give the same number.
pub proof fn lemma_fitness_order_independent(g: Seq<usize>)
    ensures
        fitness_of(g) == score_by_columns(g, g.len() as int),
{
    lemma_prefix_order_independent(g, g.len() as int);
}

/// The genes of `g` with the order of the rows reversed.
pub open spec fn reversed(g: Seq<usize>) -> Seq<usize> {
    Seq::new(g.len(), |k: int| g[g.len() - 1 - k])
}

proof fn lemma_reversed_row(g: Seq<usize>, i: int, end: int)
    requires
        0 <= i < g.len(),
        i + 1 <= end <= g.len(),
    ensures
        row_score(reversed(g), i, end) + column_score(g, g.len() - 1 - i, g.len() - end)
            == column_score(g, g.len() - 1 - i, g.len() - 1 - i),
    decreases end - i,
{
    if end > i + 1 {
        lemma_reversed_row(g, i, end - 1);
        let r = reversed(g);
        assert(non_attacking(r, i, end - 1) == non_attacking(
            g,
            g.len() - end,
            g.len() - 1 - i,
        ));
    }
}

proof fn lemma_reversed_rows(g: Seq<usize>, rows: int)
    requires
        0 <= rows <= g.len(),
    ensures
        score_upto(reversed(g), rows, g.len() as int) + score_by_columns(g, g.len() - rows)
            == score_by_columns(g, g.len() as int),
    decreases rows,
{
    if rows > 0 {
        lemma_reversed_rows(g, rows - 1);
        lemma_reversed_row(g, rows - 1, g.len() as int);
    }
}

/// Reading the board with its rows in reverse order gives the same fitness.
pub proof fn lemma_fitness_reversed(g: Seq<usize>)
    ensures
        fitness_of(reversed(g)) == fitness_of(g),
{
    lemma_reversed_rows(g, g.len() as int);
    lemma_fitness_order_independent(g);
}

/// The closed form of the number of pairs.
pub proof fn lemma_pair_count_closed(n: nat)
    ensures
        pair_count(n) == n * (n - 1) / 2,
    decreases n,
{
    if n > 0 {
        let m = (n - 1) as nat;
        lemma_pair_count_closed(m);
        assert(pair_count(n) == pair_count(m) + m);
        assert(m * (m - 1) / 2 + m == (m + 1) * m / 2) by (nonlinear_arith);
        assert(n * (n - 1) == (m + 1) * m) by (nonlinear_arith)
            requires
                n == m + 1,
        ;
    } else {
        assert(n * (n - 1) == 0) by (nonlinear_arith)
            requires
                n == 0,
        ;
    }
}

/// The fitness of a solution on an `n`-wide board: `n * (n - 1) / 2`.
pub fn max_fitness(n: usize) -> (r: usize)
    requires
        pair_count(n as nat) <= usize::MAX,
    ensures
        r == pair_count(n as nat),
        r == n * (n - 1) / 2,
{
    proof {
        lemma_pair_count_closed(n as nat);
    }
    let half: usize = n / 2;
    if n == 0 {
        0
    } else if n % 2 == 0 {
        proof {
            assert(n * (n - 1) == 2 * (half * (n - 1))) by (nonlinear_arith)
                requires
                    n == 2 * half,
            ;
        }
        half * (n - 1)
    } else {
        proof {
            assert(n * (n - 1) == 2 * (n * half)) by (nonlinear_arith)
                requires
                    n == 2 * half + 1,
            ;
        }
        n * half
    }
}

/// Counts the non-attacking pairs of queens of `genes`.
pub fn evaluate(genes: &Vec<usize>) -> (r: usize)
    requires
        pair_count(genes@.len()) <= usize::MAX,
    ensures
        r == fitness_of(genes@),
        r <= pair_count(genes@.len()),
        r <= genes@.len() * (genes@.len() - 1) / 2,
{
    proof {
        lemma_pair_count_closed(genes@.len());
    }
    let n = genes.len();
    let mut count: usize = 0;
    let mut i: usize = 0;
    proof {
        lemma_fitness_bound(genes@);
    }
    while i < n
        invariant
            n == genes@.len(),
            i <= n,
            pair_count(n as nat) <= usize::MAX,
            count == score_upto(genes@, i as int, n as int),
        decreases n - i,
    {
        let mut j: usize = i + 1;
        proof {
            lemma_score_upto_bound(genes@, i as int + 1);
            lemma_row_score_bound(genes@, i as int, n as int);
        }
        while j < n
            invariant
                n == genes@.len(),
                i < n,
                i + 1 <= j <= n,
                pair_count(n as nat) <= usize::MAX,
                score_upto(genes@, i as int + 1, n as int) <= pair_count(n as nat),
                score_upto(genes@, i as int + 1, n as int) == score_upto(genes@, i as int, n as int)
                    + row_score(genes@, i as int, n as int),
                row_score(genes@, i as int, n as int) >= row_score(genes@, i as int, j as int),
                count == score_upto(genes@, i as int, n as int)
                    + row_score(genes@, i as int, j as int),
            decreases n - j,
        {
            let a = genes[i];
            let b = genes[j];
            let diff = if a > b { a - b } else { b - a };
            proof {
                lemma_row_score_monotone(genes@, i as int, j as int + 1, n as int);
            }
            if a != b && diff != j - i {
                count = count + 1;
            }
            j = j + 1;
        }
        i = i + 1;
    }
    count
}

pub proof fn lemma_row_score_monotone(g: Seq<usize>, i: int, a: int, b: int)
    requires
        a <= b,
    ensures
        row_score(g, i, a) <= row_score(g, i, b),
    decreases b - a,
{
    if a < b {
        lemma_row_score_monotone(g, i, a, b - 1);
    }
}

/// A candidate placement: the column of each row's queen, with its fitness.
#[derive(Debug, Clone)]
pub struct Individual {
    pub genes: Vec<usize>,
    pub fitness: usize,
}

impl Individual {
    /// Every gene is a column of an `n`-wide board, there is one per row, and the stored
    /// fitness is the one the genes give.
    pub open spec fn wf(&self, n: nat) -> bool {
        &&& self.genes@.len() == n
        &&& forall|k: int| 0 <= k < n ==> self.genes@[k] < n
        &&& self.fitness == fitness_of(self.genes@)
    }

    /// Recomputes the stored fitness from the genes.
    pub fn calculate_fitness(&mut self)
        requires
            pair_count(old(self).genes@.len()) <= usize::MAX,
        ensures
            final(self).genes == old(self).genes,
            final(self).fitness == fitness_of(old(self).genes@),
    {
        self.fitness = evaluate(&self.genes);
    }
}

} // verus!
