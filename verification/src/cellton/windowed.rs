//! A row of cells that are alive or dead. A cell's next state comes from the
//! window of three cells around it; the two cells at the ends never change.

use vstd::prelude::*;

verus! {

/// The state that a window turns into: alive exactly for a window of three
/// cells that reads dead, alive, alive or alive, alive, dead.
pub open spec fn new_state_spec(windowed: Seq<bool>) -> bool {
    windowed == seq![false, true, true] || windowed == seq![true, true, false]
}

/// The next generation of a row.
pub open spec fn next_row(row: Seq<bool>) -> Seq<bool> {
    Seq::new(
        row.len(),
        |i: int|
            if i == 0 || i == row.len() - 1 {
                row[i]
            } else {
                new_state_spec(row.subrange(i - 1, i + 2))
            },
    )
}

/// The state that a window turns into.
pub fn get_new_state(windowed: &[bool]) -> (alive: bool)
    ensures
        alive == new_state_spec(windowed@),
{
    if windowed.len() != 3 {
        assert(seq![false, true, true].len() == 3);
        assert(seq![true, true, false].len() == 3);
        return false;
    }
    let a = windowed[0];
    let b = windowed[1];
    let c = windowed[2];
    let alive = b && ((!a && c) || (a && !c));
    proof {
        if alive {
            if !a {
                assert(windowed@ =~= seq![false, true, true]);
            } else {
                assert(windowed@ =~= seq![true, true, false]);
            }
        } else {
            assert(seq![false, true, true][0] == false);
            assert(seq![false, true, true][1] == true);
            assert(seq![false, true, true][2] == true);
            assert(seq![true, true, false][0] == true);
            assert(seq![true, true, false][1] == true);
            assert(seq![true, true, false][2] == false);
        }
    }
    alive
}

/// Replaces a row of at least two cells by its next generation.
pub fn next_gen(cell: &mut [bool])
    requires
        old(cell)@.len() >= 2,
    ensures
        final(cell)@ == next_row(old(cell)@),
{
    let n = cell.len();
    let mut v: Vec<bool> = Vec::with_capacity(n);
    v.push(cell[0]);
    let mut i: usize = 1;
    while i < n - 1
        invariant
            n == cell@.len(),
            cell@ == old(cell)@,
            n >= 2,
            1 <= i <= n - 1,
            v@.len() == i,
            forall|k: int| 0 <= k < i ==> v@[k] == next_row(cell@)[k],
        decreases n - i,
    {
        let window = vstd::slice::slice_subrange(cell, i - 1, i + 2);
        v.push(get_new_state(window));
        i = i + 1;
    }
    v.push(cell[n - 1]);
    assert(v@ =~= next_row(old(cell)@));
    let mut k: usize = 0;
    while k < n
        invariant
            n == cell@.len(),
            n == v@.len(),
            k <= n,
            forall|m: int| 0 <= m < k ==> cell@[m] == v@[m],
        decreases n - k,
    {
        cell[k] = v[k];
        k = k + 1;
    }
    assert(cell@ =~= v@);
}

/// Calls `rand::random`, which gives `true` or `false` by chance.
#[verifier::external_body]
fn random_state() -> bool {
    rand::random()
}

/// A row of the given length whose cells are alive or dead by chance.
pub fn random_row(len: usize) -> (row: Vec<bool>)
    ensures
        row@.len() == len,
{
    let mut row: Vec<bool> = Vec::with_capacity(len);
    let mut i: usize = 0;
    while i < len
        invariant
            i <= len,
            row@.len() == i,
        decreases len - i,
    {
        row.push(random_state());
        i = i + 1;
    }
    row
}

} // verus!
