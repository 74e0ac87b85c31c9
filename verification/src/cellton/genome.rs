//! A row of cells that are 0 or 1. A cell's next state comes from its genome:
//! a code made of its left neighbour, itself and its right neighbour. Beyond
//! the ends of the row every cell counts as 0.

use vstd::prelude::*;

verus! {

/// The neighbourhood of one cell as a number from 0 to 7.
#[derive(Clone, Copy, Debug, PartialEq, Eq, Structural)]
pub struct Genome {
    pub code: u8,
}

/// The code of a neighbourhood: the left cell counts 1, the cell itself 2 and
/// the right cell 4.
pub open spec fn code_spec(a: u8, b: u8, c: u8) -> int {
    1 * a + 2 * b + 4 * c
}

/// The state that a code turns into: 1 for the codes 1, 3, 4 and 6, which
/// are those with exactly one live neighbour, and 0 for the others.
pub open spec fn translate_spec(code: u8) -> u8 {
    if code == 1 || code == 3 || code == 4 || code == 6 {
        1
    } else {
        0
    }
}

/// The cell at `i`, or 0 beyond the ends of the row.
pub open spec fn cell_at(row: Seq<u8>, i: int) -> u8 {
    if 0 <= i < row.len() {
        row[i]
    } else {
        0
    }
}

/// The next state of the cell at `i`.
pub open spec fn next_cell(row: Seq<u8>, i: int) -> u8 {
    translate_spec(code_at(row, i) as u8)
}

/// Whether every cell of the row is 0 or 1.
pub open spec fn binary(row: Seq<u8>) -> bool {
    forall|i: int| 0 <= i < row.len() ==> row[i] <= 1
}

/// The code of the neighbourhood of the cell at `i`.
pub open spec fn code_at(row: Seq<u8>, i: int) -> int {
    code_spec(cell_at(row, i - 1), cell_at(row, i), cell_at(row, i + 1))
}

/// Whether every cell of the row has a genome: the code of its
/// neighbourhood is 7 at most.
pub open spec fn has_genomes(row: Seq<u8>) -> bool {
    forall|i: int| 0 <= i < row.len() ==> #[trigger] code_at(row, i) <= 7
}

/// The genome of a cell with the left neighbour `a`, the state `b` and the
/// right neighbour `c`.
pub fn procreate(a: u8, b: u8, c: u8) -> (g: Genome)
    requires
        code_spec(a, b, c) <= u8::MAX,
    ensures
        g.code == code_spec(a, b, c),
{
    Genome { code: 1 * a + 2 * b + 4 * c }
}

impl Genome {
    /// The state that the genome turns into.
    pub fn translate(&self) -> (state: u8)
        requires
            self.code <= 7,
        ensures
            state == translate_spec(self.code),
            state <= 1,
    {
        if self.code == 1 || self.code == 3 || self.code == 4 || self.code == 6 {
            1
        } else {
            0
        }
    }
}

/// The next generation of a row of at least two cells: every cell takes the
/// state that its genome turns into.
pub fn next_gen(old: Vec<u8>) -> (new: Vec<u8>)
    requires
        old@.len() >= 2,
        has_genomes(old@),
    ensures
        new@.len() == old@.len(),
        forall|i: int| 0 <= i < new@.len() ==> new@[i] == next_cell(old@, i),
        binary(new@),
{
    let n = old.len();
    let mut new: Vec<u8> = Vec::with_capacity(n);
    assert(code_at(old@, 0) <= 7);
    new.push(procreate(0, old[0], old[1]).translate());
    let mut cell_ind: usize = 1;
    while cell_ind < n - 1
        invariant
            n == old@.len(),
            n >= 2,
            has_genomes(old@),
            1 <= cell_ind <= n - 1,
            new@.len() == cell_ind,
            forall|i: int| 0 <= i < cell_ind ==> new@[i] == next_cell(old@, i),
            binary(new@),
        decreases n - cell_ind,
    {
        assert(code_at(old@, cell_ind as int) <= 7);
        let genome = procreate(old[cell_ind - 1], old[cell_ind], old[cell_ind + 1]);
        new.push(genome.translate());
        cell_ind = cell_ind + 1;
    }
    assert(code_at(old@, n - 1) <= 7);
    new.push(procreate(old[n - 2], old[n - 1], 0).translate());
    new
}

/// A row of cells that are 0 or 1 has a genome for every cell, and so has
/// every generation after it.
pub proof fn lemma_binary_has_genomes(row: Seq<u8>)
    requires
        binary(row),
    ensures
        has_genomes(row),
{
    assert forall|i: int| 0 <= i < row.len() implies #[trigger] code_at(row, i) <= 7 by {
        assert(cell_at(row, i - 1) <= 1);
        assert(cell_at(row, i) <= 1);
        assert(cell_at(row, i + 1) <= 1);
    }
}

/// Calls `rand::random_range` on the range from 0 to 1, both included, which
/// gives a number of that range. Which one is left to chance.
#[verifier::external_body]
fn random_cell() -> (cell: u8)
    ensures
        cell <= 1,
{
    rand::random_range(0..=1u8)
}

/// A row of the given length whose cells are 0 or 1 by chance.
pub fn random_grid(len: usize) -> (grid: Vec<u8>)
    ensures
        grid@.len() == len,
        binary(grid@),
{
    let mut grid: Vec<u8> = Vec::with_capacity(len);
    let mut i: usize = 0;
    while i < len
        invariant
            i <= len,
            grid@.len() == i,
            binary(grid@),
        decreases len - i,
    {
        grid.push(random_cell());
        i = i + 1;
    }
    grid
}

/// A cell comes alive exactly when one of its two neighbours is alive and
/// the other is not, whatever its own state.
pub proof fn lemma_one_live_neighbour(a: u8, b: u8, c: u8)
    requires
        a <= 1,
        b <= 1,
        c <= 1,
    ensures
        translate_spec(code_spec(a, b, c) as u8) == (if a != c { 1u8 } else { 0u8 }),
{
}

} // verus!
