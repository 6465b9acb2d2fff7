//! Die counts drawn from a classified grid: complete, partial and wasted
//! dies, and the split of the complete ones into good and bad under a yield
//! fraction.
use vstd::prelude::*;

use crate::die::DieType;
use crate::util::{random, Coordinate};

verus! {

/// One classified grid entry.
pub type Cell = (DieType, Coordinate);

/// A grid as nested sequences, column by column.
pub open spec fn rows_of(grid: Seq<Vec<Cell>>) -> Seq<Seq<Cell>> {
    grid.map_values(|column: Vec<Cell>| column@)
}

/// Entries of `column` classified `t`.
pub open spec fn count_column(column: Seq<Cell>, t: DieType) -> nat
    decreases column.len(),
{
    if column.len() == 0 {
        0
    } else {
        count_column(column.drop_last(), t) + if column.last().0 == t {
            1nat
        } else {
            0nat
        }
    }
}

/// Entries of `grid` classified `t`.
pub open spec fn count_grid(grid: Seq<Seq<Cell>>, t: DieType) -> nat
    decreases grid.len(),
{
    if grid.len() == 0 {
        0
    } else {
        count_grid(grid.drop_last(), t) + count_column(grid.last(), t)
    }
}

/// Entries of `column` that were placed, whatever their class.
pub open spec fn placed_in_column(column: Seq<Cell>) -> nat
    decreases column.len(),
{
    if column.len() == 0 {
        0
    } else {
        placed_in_column(column.drop_last()) + if column.last().0 != DieType::Absent {
            1nat
        } else {
            0nat
        }
    }
}

/// Entries of `grid` that were placed: every class but `Absent`.
pub open spec fn placed_in_grid(grid: Seq<Seq<Cell>>) -> nat
    decreases grid.len(),
{
    if grid.len() == 0 {
        0
    } else {
        placed_in_grid(grid.drop_last()) + placed_in_column(grid.last())
    }
}

/// Number of entries in `grid`.
pub open spec fn cell_total(grid: Seq<Seq<Cell>>) -> nat
    decreases grid.len(),
{
    if grid.len() == 0 {
        0
    } else {
        cell_total(grid.drop_last()) + grid.last().len()
    }
}

proof fn lemma_column_conservation(column: Seq<Cell>)
    ensures
        count_column(column, DieType::Complete) + count_column(column, DieType::Partial)
            + count_column(column, DieType::Wasted) == placed_in_column(column),
        placed_in_column(column) + count_column(column, DieType::Absent) == column.len(),
    decreases column.len(),
{
    if column.len() > 0 {
        lemma_column_conservation(column.drop_last());
    }
}

/// Count conservation: the complete, partial and wasted entries of a grid
/// are exactly its placed entries, and with the absent ones they make up the
/// whole grid.
pub proof fn lemma_count_conservation(grid: Seq<Seq<Cell>>)
    ensures
        count_grid(grid, DieType::Complete) + count_grid(grid, DieType::Partial) + count_grid(
            grid,
            DieType::Wasted,
        ) == placed_in_grid(grid),
        placed_in_grid(grid) + count_grid(grid, DieType::Absent) == cell_total(grid),
    decreases grid.len(),
{
    if grid.len() > 0 {
        lemma_count_conservation(grid.drop_last());
        lemma_column_conservation(grid.last());
    }
}

/// How many dies of each placed class a grid holds.
#[derive(Clone, Copy, Debug, PartialEq, Eq, Structural)]
pub struct DieCounts {
    pub complete: u64,
    pub partial: u64,
    pub wasted: u64,
}

/// Counts the complete, partial and wasted entries of `grid`; absent
/// entries are left out.
pub fn count_dies(grid: &Vec<Vec<Cell>>) -> (r: DieCounts)
    requires
        cell_total(rows_of(grid@)) <= u64::MAX,
    ensures
        r.complete == count_grid(rows_of(grid@), DieType::Complete),
        r.partial == count_grid(rows_of(grid@), DieType::Partial),
        r.wasted == count_grid(rows_of(grid@), DieType::Wasted),
        r.complete + r.partial + r.wasted == placed_in_grid(rows_of(grid@)),
{
    let ghost rows = rows_of(grid@);
    let mut complete: u64 = 0;
    let mut partial: u64 = 0;
    let mut wasted: u64 = 0;
    let mut i: usize = 0;
    while i < grid.len()
        invariant
            rows == rows_of(grid@),
            cell_total(rows) <= u64::MAX,
            0 <= i <= grid@.len(),
            complete == count_grid(rows.take(i as int), DieType::Complete),
            partial == count_grid(rows.take(i as int), DieType::Partial),
            wasted == count_grid(rows.take(i as int), DieType::Wasted),
            complete + partial + wasted <= cell_total(rows.take(i as int)),
        decreases grid@.len() - i,
    {
        let column = &grid[i];
        let ghost before = rows.take(i as int);
        proof {
            assert(rows.take(i as int + 1).drop_last() =~= before);
            lemma_cell_total_prefix(rows, i as int + 1);
            lemma_count_conservation(before);
        }
        let mut j: usize = 0;
        while j < column.len()
            invariant
                rows == rows_of(grid@),
                column@ == rows[i as int],
                before == rows.take(i as int),
                cell_total(before) + column@.len() <= u64::MAX,
                0 <= i < grid@.len(),
                0 <= j <= column@.len(),
                complete == count_grid(before, DieType::Complete) + count_column(
                    column@.take(j as int),
                    DieType::Complete,
                ),
                partial == count_grid(before, DieType::Partial) + count_column(
                    column@.take(j as int),
                    DieType::Partial,
                ),
                wasted == count_grid(before, DieType::Wasted) + count_column(
                    column@.take(j as int),
                    DieType::Wasted,
                ),
                complete + partial + wasted <= cell_total(before) + j,
            decreases column@.len() - j,
        {
            proof {
                assert(column@.take(j as int + 1).drop_last() =~= column@.take(j as int));
            }
            match column[j].0 {
                DieType::Complete => complete = complete + 1,
                DieType::Partial => partial = partial + 1,
                DieType::Wasted => wasted = wasted + 1,
                DieType::Absent => {},
            }
            j = j + 1;
        }
        proof {
            assert(column@.take(j as int) =~= column@);
        }
        i = i + 1;
    }
    proof {
        assert(rows.take(i as int) =~= rows);
        lemma_count_conservation(rows);
    }
    DieCounts { complete, partial, wasted }
}

/// `cell_total` of a longer prefix adds the next column's length.
proof fn lemma_cell_total_prefix(grid: Seq<Seq<Cell>>, n: int)
    requires
        0 < n <= grid.len(),
    ensures
        cell_total(grid.take(n)) == cell_total(grid.take(n - 1)) + grid[n - 1].len(),
        cell_total(grid.take(n)) <= cell_total(grid),
    decreases grid.len() - n,
{
    assert(grid.take(n).drop_last() =~= grid.take(n - 1));
    if n < grid.len() {
        lemma_cell_total_prefix(grid, n + 1);
    } else {
        assert(grid.take(n) =~= grid);
    }
}

/// Yield fractions are given in billionths.
pub const YIELD_SCALE: u64 = 1_000_000_000;

/// `round(complete * (1 - y))` for `y = yield_fraction / YIELD_SCALE`, with
/// halves rounded up; no die is bad when `y >= 1`.
pub open spec fn spec_bad_dies(complete: int, yield_fraction: int) -> int {
    if yield_fraction >= YIELD_SCALE {
        0
    } else {
        (complete * (YIELD_SCALE - yield_fraction) + YIELD_SCALE / 2) / (YIELD_SCALE as int)
    }
}

/// The complete dies that a yield fraction leaves functional.
pub open spec fn spec_good_dies(complete: int, yield_fraction: int) -> int {
    complete - spec_bad_dies(complete, yield_fraction)
}

/// The bad dies never outnumber the complete ones.
proof fn lemma_bad_at_most_complete(complete: int, yield_fraction: int)
    requires
        0 <= complete,
        0 <= yield_fraction,
    ensures
        0 <= spec_bad_dies(complete, yield_fraction) <= complete,
{
    if yield_fraction < YIELD_SCALE {
        let s = YIELD_SCALE as int;
        let num = complete * (s - yield_fraction) + s / 2;
        assert(0 <= complete * (s - yield_fraction) <= complete * s) by (nonlinear_arith)
            requires
                0 <= complete,
                0 < s - yield_fraction <= s,
        ;
        vstd::arithmetic::div_mod::lemma_div_is_ordered(num, complete * s + s / 2, s);
        vstd::arithmetic::div_mod::lemma_div_pos_is_pos(num, s);
        assert((complete * s + s / 2) / s == complete) by (nonlinear_arith)
            requires
                s == 1_000_000_000,
                0 <= complete,
        ;
    }
}

/// Good and bad dies partition the complete ones.
pub proof fn lemma_good_bad_partition(complete: int, yield_fraction: int)
    requires
        0 <= complete,
        0 <= yield_fraction,
    ensures
        spec_good_dies(complete, yield_fraction) + spec_bad_dies(complete, yield_fraction)
            == complete,
        0 <= spec_good_dies(complete, yield_fraction) <= complete,
        0 <= spec_bad_dies(complete, yield_fraction) <= complete,
{
    lemma_bad_at_most_complete(complete, yield_fraction);
}

/// Complete dies that the yield fraction (in billionths) expects to fail.
pub fn bad_dies(complete: u64, yield_fraction: u64) -> (r: u64)
    ensures
        r == spec_bad_dies(complete as int, yield_fraction as int),
        r <= complete,
{
    proof {
        lemma_bad_at_most_complete(complete as int, yield_fraction as int);
    }
    if yield_fraction >= YIELD_SCALE {
        return 0;
    }
    let c = complete as u128;
    let s = YIELD_SCALE as u128;
    let f = yield_fraction as u128;
    assert(c * (s - f) <= 0x1_0000_0000_0000_0000 * 1_000_000_000) by (nonlinear_arith)
        requires
            c < 0x1_0000_0000_0000_0000,
            s - f <= 1_000_000_000,
    ;
    let bad = (c * (s - f) + s / 2) / s;
    bad as u64
}

/// Complete dies that the yield fraction (in billionths) expects to work.
pub fn good_dies(complete: u64, yield_fraction: u64) -> (r: u64)
    ensures
        r == spec_good_dies(complete as int, yield_fraction as int),
        r + spec_bad_dies(complete as int, yield_fraction as int) == complete,
{
    complete - bad_dies(complete, yield_fraction)
}

/// `p` names an entry of `grid` classified `Complete`.
pub open spec fn is_complete_at(grid: Seq<Seq<Cell>>, p: (usize, usize)) -> bool {
    &&& p.0 < grid.len()
    &&& p.1 < grid[p.0 as int].len()
    &&& grid[p.0 as int][p.1 as int].0 == DieType::Complete
}

/// Picks `bad` distinct complete entries of `grid` at random, each subset of
/// that size equally likely; they are the ones shown as defective. Returns
/// (column, row) indices.
pub fn choose_bad_dies(grid: &Vec<Vec<Cell>>, bad: u64) -> (r: Vec<(usize, usize)>)
    requires
        bad <= count_grid(rows_of(grid@), DieType::Complete),
    ensures
        r@.len() == bad,
        forall|k: int| 0 <= k < r@.len() ==> is_complete_at(rows_of(grid@), #[trigger] r@[k]),
        forall|a: int, b: int| 0 <= a < b < r@.len() ==> r@[a] != r@[b],
{
    let mut positions = complete_positions(grid);
    let n = positions.len();
    let mut chosen: Vec<(usize, usize)> = Vec::new();
    let mut i: usize = 0;
    while (i as u64) < bad
        invariant
            bad <= n,
            n == positions@.len(),
            0 <= i <= bad,
            chosen@.len() == i,
            forall|k: int| 0 <= k < n ==> is_complete_at(rows_of(grid@), #[trigger] positions@[k]),
            forall|a: int, b: int| 0 <= a < b < n ==> positions@[a] != positions@[b],
            forall|k: int| 0 <= k < i ==> #[trigger] chosen@[k] == positions@[k],
        decreases bad - i,
    {
        let j = random(i, n - 1);
        let a = positions[i];
        let b = positions[j];
        let ghost before = positions@;
        positions.set(i, b);
        positions.set(j, a);
        proof {
            assert forall|k: int| 0 <= k < n implies is_complete_at(
                rows_of(grid@),
                #[trigger] positions@[k],
            ) by {
                if k == i {
                    assert(positions@[k] == before[j as int]);
                } else if k == j {
                    assert(positions@[k] == before[i as int]);
                } else {
                    assert(positions@[k] == before[k]);
                }
            }
            assert forall|p: int, q: int| 0 <= p < q < n implies positions@[p]
                != positions@[q] by {
                let sp = if p == i {
                    j as int
                } else if p == j {
                    i as int
                } else {
                    p
                };
                let sq = if q == i {
                    j as int
                } else if q == j {
                    i as int
                } else {
                    q
                };
                assert(positions@[p] == before[sp]);
                assert(positions@[q] == before[sq]);
                assert(sp != sq);
                if sp < sq {
                    assert(before[sp] != before[sq]);
                } else {
                    assert(before[sq] != before[sp]);
                }
            }
        }
        chosen.push(b);
        i = i + 1;
    }
    chosen
}

/// The (column, row) indices of every complete entry, in grid order.
fn complete_positions(grid: &Vec<Vec<Cell>>) -> (r: Vec<(usize, usize)>)
    ensures
        r@.len() == count_grid(rows_of(grid@), DieType::Complete),
        forall|k: int| 0 <= k < r@.len() ==> is_complete_at(rows_of(grid@), #[trigger] r@[k]),
        forall|a: int, b: int| 0 <= a < b < r@.len() ==> r@[a] != r@[b],
{
    let ghost rows = rows_of(grid@);
    let mut positions: Vec<(usize, usize)> = Vec::new();
    let mut i: usize = 0;
    while i < grid.len()
        invariant
            rows == rows_of(grid@),
            0 <= i <= grid@.len(),
            positions@.len() == count_grid(rows.take(i as int), DieType::Complete),
            forall|k: int|
                0 <= k < positions@.len() ==> is_complete_at(rows, #[trigger] positions@[k]),
            forall|k: int| 0 <= k < positions@.len() ==> (#[trigger] positions@[k]).0 < i,
            forall|a: int, b: int|
                0 <= a < b < positions@.len() ==> positions@[a] != positions@[b],
        decreases grid@.len() - i,
    {
        let column = &grid[i];
        let ghost before = rows.take(i as int);
        proof {
            assert(rows.take(i as int + 1).drop_last() =~= before);
        }
        let mut j: usize = 0;
        while j < column.len()
            invariant
                rows == rows_of(grid@),
                column@ == rows[i as int],
                before == rows.take(i as int),
                0 <= i < grid@.len(),
                0 <= j <= column@.len(),
                positions@.len() == count_grid(before, DieType::Complete) + count_column(
                    column@.take(j as int),
                    DieType::Complete,
                ),
                forall|k: int|
                    0 <= k < positions@.len() ==> is_complete_at(rows, #[trigger] positions@[k]),
                forall|k: int|
                    0 <= k < positions@.len() ==> (#[trigger] positions@[k]).0 < i || (
                    positions@[k].0 == i && positions@[k].1 < j),
                forall|a: int, b: int|
                    0 <= a < b < positions@.len() ==> positions@[a] != positions@[b],
            decreases column@.len() - j,
        {
            proof {
                assert(column@.take(j as int + 1).drop_last() =~= column@.take(j as int));
            }
            if column[j].0 == DieType::Complete {
                positions.push((i, j));
            }
            j = j + 1;
        }
        proof {
            assert(column@.take(j as int) =~= column@);
        }
        i = i + 1;
    }
    proof {
        assert(rows.take(i as int) =~= rows);
    }
    positions
}

} // verus!
