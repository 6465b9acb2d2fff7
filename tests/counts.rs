use die_yield::counts::{bad_dies, choose_bad_dies, count_dies, good_dies, Cell, YIELD_SCALE};
use die_yield::die::DieType;
use die_yield::util::Coordinate;
use die_yield::wafer::Wafer;
use die_yield::yield_model::DEFECT_SCALE;

fn at(x: i64, y: i64, kind: DieType) -> Cell {
    (kind, Coordinate { x, y })
}

fn small_grid() -> Vec<Vec<Cell>> {
    vec![
        vec![at(0, 0, DieType::Absent), at(0, 1, DieType::Wasted), at(0, 2, DieType::Partial)],
        vec![at(1, 0, DieType::Complete), at(1, 1, DieType::Complete), at(1, 2, DieType::Partial)],
        vec![at(2, 0, DieType::Complete), at(2, 1, DieType::Absent), at(2, 2, DieType::Complete)],
    ]
}

#[test]
fn counts_each_placed_class() {
    let counts = count_dies(&small_grid());
    assert_eq!(counts.complete, 4);
    assert_eq!(counts.partial, 2);
    assert_eq!(counts.wasted, 1);
    // nine cells, two absent
    assert_eq!(counts.complete + counts.partial + counts.wasted, 7);
}

#[test]
fn empty_grid_counts_nothing() {
    let counts = count_dies(&Vec::new());
    assert_eq!((counts.complete, counts.partial, counts.wasted), (0, 0, 0));
}

#[test]
fn bad_dies_round_to_nearest() {
    // 90 % yield over 100 complete dies
    assert_eq!(bad_dies(100, 900_000_000), 10);
    assert_eq!(good_dies(100, 900_000_000), 90);
    // 0.5 bad dies rounds up
    assert_eq!(bad_dies(1, 500_000_000), 1);
    assert_eq!(bad_dies(1, 500_000_001), 0);
    // exp(-0.001) over 2000 dies: 1.999 bad dies
    assert_eq!(bad_dies(2_000, 999_000_500), 2);
}

#[test]
fn yield_extremes() {
    assert_eq!(bad_dies(37, YIELD_SCALE), 0);
    assert_eq!(bad_dies(37, 2 * YIELD_SCALE), 0);
    assert_eq!(bad_dies(37, 0), 37);
    assert_eq!(good_dies(37, 0), 0);
    assert_eq!(good_dies(0, 400_000_000), 0);
}

#[test]
fn good_and_bad_make_up_complete() {
    for complete in [0u64, 1, 7, 1_000, 123_457] {
        for fraction in [0u64, 1, 333_333_333, 500_000_000, 999_999_999, YIELD_SCALE] {
            assert_eq!(good_dies(complete, fraction) + bad_dies(complete, fraction), complete);
        }
    }
}

#[test]
fn chosen_bad_dies_are_distinct_complete_cells() {
    let grid = small_grid();
    for bad in 0..=4u64 {
        let chosen = choose_bad_dies(&grid, bad);
        assert_eq!(chosen.len() as u64, bad);
        for (k, &(x, y)) in chosen.iter().enumerate() {
            assert_eq!(grid[x][y].0, DieType::Complete);
            for &other in &chosen[k + 1..] {
                assert_ne!((x, y), other);
            }
        }
    }
}

#[test]
fn all_complete_dies_chosen_when_all_are_bad() {
    let grid = small_grid();
    let mut chosen = choose_bad_dies(&grid, 4);
    chosen.sort();
    assert_eq!(chosen, vec![(1, 0), (1, 1), (2, 0), (2, 2)]);
}

#[test]
fn defect_load_of_one_square_millimetre() {
    let mut wafer = Wafer::default();
    // 1 mm² at 0.1 defects per cm²: d = 0.001
    wafer.critical_area = 1_000_000;
    wafer.defect_rate = 100;
    assert_eq!(wafer.defect_load(), 100_000_000);
    assert_eq!(wafer.defect_load() * 1_000, DEFECT_SCALE);
}

#[test]
fn defect_load_is_never_negative() {
    let mut wafer = Wafer::default();
    wafer.defect_rate = -5;
    assert_eq!(wafer.defect_load(), 0);
    wafer.defect_rate = 0;
    assert_eq!(wafer.defect_load(), 0);
}
