use die_yield::counts::count_dies;
use die_yield::die::{Die, DieType};
use die_yield::shape::{Diameter, Panel, Shape};
use die_yield::util::Coordinate;
use die_yield::wafer::Wafer;
use die_yield::yield_model::YieldModel;

fn wafer_config(shape: Shape, die: Die, scribe: (i64, i64), edge_loss: i64) -> Wafer {
    Wafer {
        critical_area: die.area(),
        shape,
        edge_loss,
        defect_rate: 100,
        scribe_lanes: scribe,
        translation: (0, 0),
        centered: false,
        die,
        yield_model: YieldModel::Poisson,
    }
}

fn hundred_mm_wafer() -> Wafer {
    wafer_config(
        Shape::Wafer(Diameter::Four),
        Die::Rectangle { width: 10_000, height: 10_000 },
        (200, 200),
        3_000,
    )
}

#[test]
fn hundred_mm_wafer_grid_is_ten_by_ten() {
    let wafer = hundred_mm_wafer();
    assert!(wafer.is_valid());
    let grid = wafer.get_dies();
    assert_eq!(grid.len(), 10);
    for column in &grid {
        assert_eq!(column.len(), 10);
    }
}

#[test]
fn hundred_mm_wafer_centre_and_edge() {
    let grid = hundred_mm_wafer().get_dies();
    // nine periods, odd, not centred: the lattice is shifted by half a lane
    assert_eq!(grid[5][5], (DieType::Complete, Coordinate { x: 50_100, y: 50_100 }));
    assert_eq!(grid[0][0], (DieType::Absent, Coordinate { x: -900, y: -900 }));
    assert_eq!(grid[9][9].1, Coordinate { x: 90_900, y: 90_900 });
    assert_eq!(grid[9][9].0, DieType::Absent);
    let near_edge = grid[0][5].0;
    assert!(near_edge == DieType::Absent || near_edge == DieType::Wasted);
}

#[test]
fn centred_flag_flips_the_offset() {
    let mut wafer = hundred_mm_wafer();
    wafer.centered = true;
    let grid = wafer.get_dies();
    // odd count and centred: a die centre sits on the axis
    assert_eq!(grid[5][5].1, Coordinate { x: 45_000, y: 45_000 });
    assert_eq!(grid[5][5].0, DieType::Complete);
}

#[test]
fn translation_shifts_every_position() {
    let mut wafer = hundred_mm_wafer();
    wafer.translation = (1_500, -2_000);
    let grid = wafer.get_dies();
    assert_eq!(grid[5][5].1, Coordinate { x: 51_600, y: 48_100 });
}

#[test]
fn grid_is_rectangular_for_defaults() {
    let wafer = Wafer::default();
    let grid = wafer.get_dies();
    // 300 mm over an 8.25 mm period: 36 whole periods
    assert_eq!(grid.len(), 37);
    for column in &grid {
        assert_eq!(column.len(), grid[0].len());
    }
    assert_eq!(grid[0].len(), 37);
}

#[test]
fn layout_is_idempotent() {
    let a = hundred_mm_wafer();
    let b = hundred_mm_wafer();
    assert_eq!(a.get_dies(), b.get_dies());
    assert_eq!(a.get_dies(), a.get_dies());
}

#[test]
fn reticle_larger_than_surface_gives_single_die() {
    let wafer = wafer_config(
        Shape::Wafer(Diameter::Two),
        Die::Rectangle { width: 60_000, height: 60_000 },
        (0, 0),
        0,
    );
    let grid = wafer.get_dies();
    assert_eq!(grid.len(), 1);
    assert_eq!(grid[0].len(), 1);
    assert_eq!(grid[0][0].0, DieType::Absent);
}

fn small_die_panel() -> Wafer {
    wafer_config(
        Shape::Panel(Panel::TwelveByTwelve),
        Die::Rectangle { width: 1_000, height: 1_000 },
        (0, 0),
        3_000,
    )
}

#[test]
fn panel_classifies_every_kind() {
    let grid = small_die_panel().get_dies();
    assert_eq!(grid.len(), 301);
    assert_eq!(grid[0][150], (DieType::Absent, Coordinate { x: -500, y: 149_500 }));
    assert_eq!(grid[1][150], (DieType::Wasted, Coordinate { x: 500, y: 149_500 }));
    assert_eq!(grid[3][150], (DieType::Partial, Coordinate { x: 2_500, y: 149_500 }));
    assert_eq!(grid[4][150], (DieType::Complete, Coordinate { x: 3_500, y: 149_500 }));
    assert_eq!(grid[1][1].0, DieType::Wasted);
    assert_eq!(grid[300][150].0, DieType::Absent);
}

#[test]
fn panel_counts_are_conserved() {
    let grid = small_die_panel().get_dies();
    let counts = count_dies(&grid);
    let mut placed: u64 = 0;
    let mut complete: u64 = 0;
    for column in &grid {
        for (kind, _) in column {
            if *kind != DieType::Absent {
                placed += 1;
            }
            if *kind == DieType::Complete {
                complete += 1;
            }
        }
    }
    assert_eq!(counts.complete + counts.partial + counts.wasted, placed);
    assert_eq!(counts.complete, complete);
    // lattice columns 4 to 296 fall inside the inset on each axis
    assert_eq!(counts.complete, 293 * 293);
}

#[test]
fn panel_uses_its_own_height() {
    let wafer = wafer_config(
        Shape::Panel(Panel::TwelveByEighteen),
        Die::Rectangle { width: 10_000, height: 10_000 },
        (0, 0),
        0,
    );
    let grid = wafer.get_dies();
    assert_eq!(grid.len(), 31);
    assert_eq!(grid[0].len(), 46);
}

#[test]
fn default_configuration_is_valid() {
    let wafer = Wafer::default();
    assert!(wafer.is_valid());
    assert_eq!(wafer.critical_area, 64_000_000);
    assert_eq!(wafer.scribe_lanes, (250, 250));
    assert_eq!(wafer.edge_loss, 3_000);
    assert_eq!(wafer.shape, Shape::Wafer(Diameter::Twelve));
}

#[test]
fn invalid_configurations_are_reported() {
    let mut wafer = Wafer::default();
    wafer.edge_loss = 150_000;
    assert!(!wafer.is_valid());
    wafer.edge_loss = 149_999;
    assert!(wafer.is_valid());
    wafer.scribe_lanes = (10_001, 0);
    assert!(!wafer.is_valid());
    let mut wafer = Wafer::default();
    wafer.die = Die::Square(5);
    assert!(!wafer.is_valid());
}

#[test]
fn clamp_critical_area_caps_at_die_area() {
    let mut wafer = Wafer::default();
    wafer.critical_area = 100_000_000;
    wafer.clamp_critical_area();
    assert_eq!(wafer.critical_area, 64_000_000);
    wafer.critical_area = 1_000;
    wafer.clamp_critical_area();
    assert_eq!(wafer.critical_area, 1_000);
}

fn corners(c: Coordinate, width: i64, height: i64) -> [Coordinate; 4] {
    [
        c,
        Coordinate { x: c.x + width, y: c.y },
        Coordinate { x: c.x, y: c.y + height },
        Coordinate { x: c.x + width, y: c.y + height },
    ]
}

#[test]
fn complete_dies_lie_inside_both_circles() {
    let wafer = hundred_mm_wafer();
    let centre = Coordinate { x: 50_000, y: 50_000 };
    let mut seen = 0;
    for column in wafer.get_dies() {
        for (kind, coord) in column {
            if kind == DieType::Complete {
                seen += 1;
                for corner in corners(coord, 10_000, 10_000) {
                    assert!(corner.within_radius(&centre, 47_000));
                    assert!(corner.within_radius(&centre, 50_000));
                }
            }
        }
    }
    assert!(seen > 0);
}

#[test]
fn absent_dies_leave_the_outer_circle() {
    let wafer = hundred_mm_wafer();
    let centre = Coordinate { x: 50_000, y: 50_000 };
    let mut seen = 0;
    for column in wafer.get_dies() {
        for (kind, coord) in column {
            let outside = corners(coord, 10_000, 10_000)
                .iter()
                .any(|corner| !corner.within_radius(&centre, 50_000));
            assert_eq!(kind == DieType::Absent, outside);
            if outside {
                seen += 1;
            }
        }
    }
    assert!(seen > 0);
}
