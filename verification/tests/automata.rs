use marauder::cellton::genome::{next_gen, procreate, random_grid, Genome};
use marauder::cellton::windowed::get_new_state;

#[test]
fn genome_codes() {
    assert_eq!(procreate(0, 0, 0).code, 0);
    assert_eq!(procreate(1, 0, 0).code, 1);
    assert_eq!(procreate(0, 1, 0).code, 2);
    assert_eq!(procreate(0, 0, 1).code, 4);
    assert_eq!(procreate(1, 1, 1).code, 7);
    assert_eq!(procreate(3, 2, 1).code, 11);
}

#[test]
fn genome_translation_table() {
    let got: Vec<u8> = (0..8u8).map(|code| Genome { code }.translate()).collect();
    assert_eq!(got, vec![0, 1, 0, 1, 1, 0, 1, 0]);
}

#[test]
fn a_single_cell_spreads_as_a_triangle() {
    let g0 = vec![0, 0, 0, 0, 1, 0, 0, 0, 0];
    let g1 = next_gen(g0);
    assert_eq!(g1, vec![0, 0, 0, 1, 0, 1, 0, 0, 0]);
    let g2 = next_gen(g1);
    assert_eq!(g2, vec![0, 0, 1, 0, 0, 0, 1, 0, 0]);
    let g3 = next_gen(g2);
    assert_eq!(g3, vec![0, 1, 0, 1, 0, 1, 0, 1, 0]);
    let g4 = next_gen(g3);
    assert_eq!(g4, vec![1, 0, 0, 0, 0, 0, 0, 0, 1]);
    let g5 = next_gen(g4);
    assert_eq!(g5, vec![0, 1, 0, 0, 0, 0, 0, 1, 0]);
}

#[test]
fn the_shortest_row() {
    assert_eq!(next_gen(vec![1, 0]), vec![0, 1]);
    assert_eq!(next_gen(vec![1, 1]), vec![1, 1]);
    assert_eq!(next_gen(vec![0, 0]), vec![0, 0]);
}

#[test]
fn windows_that_come_alive() {
    assert!(get_new_state(&[false, true, true]));
    assert!(get_new_state(&[true, true, false]));
    assert!(!get_new_state(&[true, true, true]));
    assert!(!get_new_state(&[false, true, false]));
    assert!(!get_new_state(&[false, false, true]));
    assert!(!get_new_state(&[true, false, true]));
    assert!(!get_new_state(&[false, false, false]));
    assert!(!get_new_state(&[true, false, false]));
    assert!(!get_new_state(&[]));
    assert!(!get_new_state(&[false, true, true, false]));
    assert!(!get_new_state(&[true, true]));
}

#[test]
fn the_ends_of_a_windowed_row_stay() {
    let mut row = vec![true, true, false, true, true, true, false];
    marauder::cellton::windowed::next_gen(&mut row);
    assert_eq!(row, vec![true, true, false, true, false, true, false]);
    let mut row = vec![false, true];
    marauder::cellton::windowed::next_gen(&mut row);
    assert_eq!(row, vec![false, true]);
    let mut row = vec![false, true, true];
    marauder::cellton::windowed::next_gen(&mut row);
    assert_eq!(row, vec![false, true, true]);
}

#[test]
fn a_random_grid_can_be_run() {
    assert!(random_grid(0).is_empty());
    let mut grid = random_grid(9);
    assert_eq!(grid.len(), 9);
    for _ in 0..10 {
        assert!(grid.iter().all(|c| *c <= 1));
        grid = next_gen(grid);
        assert_eq!(grid.len(), 9);
    }
}

#[test]
fn a_random_row_can_be_run() {
    let mut row = marauder::cellton::windowed::random_row(30);
    assert_eq!(row.len(), 30);
    let (first, last) = (row[0], row[29]);
    for _ in 0..10 {
        marauder::cellton::windowed::next_gen(&mut row);
        assert_eq!(row.len(), 30);
        assert_eq!((row[0], row[29]), (first, last));
    }
}

#[test]
fn cells_above_one_run_while_their_codes_fit() {
    assert_eq!(next_gen(vec![3, 0]), vec![1, 1]);
    assert_eq!(next_gen(vec![0, 1, 0, 3]), vec![1, 0, 0, 1]);
    assert_eq!(next_gen(vec![7, 0, 0]), vec![0, 0, 0]);
}
