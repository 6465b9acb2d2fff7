//! The configuration aggregate and the layout engine: a lattice of dies
//! placed over the surface, each position classified against the outer
//! boundary and the inner, edge-loss reduced one.
use vstd::prelude::*;

use crate::counts::{rows_of, Cell};
use crate::die::{Die, DieType};
use crate::shape::Shape;
use crate::util::{square, Coordinate, Rectangle, LENGTH_LIMIT};
use crate::yield_model::YieldModel;

verus! {

/// The smallest die edge that an edit may set, in micrometres.
pub const MINIMUM_DIE_DIMENSION: i64 = 10;

/// The widest scribe lane, in micrometres.
pub const MAXIMUM_SCRIBE_WIDTH: i64 = 10_000;

/// Everything the layout engine and the yield evaluator read. Lengths are in
/// micrometres, the critical area in square micrometres, the defect rate in
/// thousandths of a defect per square centimetre.
#[derive(Clone, Copy, Debug, PartialEq, Eq)]
pub struct Wafer {
    pub critical_area: i64,
    pub shape: Shape,
    pub edge_loss: i64,
    pub defect_rate: i64,
    pub scribe_lanes: (i64, i64),
    pub translation: (i64, i64),
    pub centered: bool,
    pub die: Die,
    pub yield_model: YieldModel,
}

/// How many whole repeat periods of `cell` fit in `extent`.
pub open spec fn lane_count(extent: int, cell: int) -> int {
    extent / cell
}

/// Position along one axis of the die at lattice index `index`. The lattice
/// is centred on the surface; the parity rule puts either a scribe lane or a
/// die centre on the central axis, depending on `centered`. The halves of
/// `extent`, `scribe` and `die` are rounded down to whole micrometres, so for
/// an odd width a position may lie half a micrometre from the exact centre.
pub open spec fn axis_position(
    extent: int,
    die: int,
    scribe: int,
    centered: bool,
    translation: int,
    index: int,
) -> int {
    let cell = die + scribe;
    let n = lane_count(extent, cell);
    let offset = if centered == (n % 2 == 0) {
        scribe / 2
    } else {
        -(die / 2)
    };
    extent / 2 + (index - (n + 1) / 2) * cell + offset + translation
}

/// Bound on every lattice position, so that footprints stay in range.
pub const POSITION_LIMIT: i64 = 100_000_000_000_000;

/// Bounds that the lattice arithmetic of one axis relies on.
proof fn lemma_axis_bounds(
    extent: int,
    die: int,
    scribe: int,
    centered: bool,
    translation: int,
    index: int,
)
    requires
        51_000 <= extent <= 600_000,
        MINIMUM_DIE_DIMENSION <= die <= LENGTH_LIMIT,
        0 <= scribe <= MAXIMUM_SCRIBE_WIDTH,
        -LENGTH_LIMIT <= translation <= LENGTH_LIMIT,
        0 <= index <= lane_count(extent, die + scribe),
    ensures
        0 <= lane_count(extent, die + scribe) <= 60_000,
        -70_000_000_000_000 <= (index - (lane_count(extent, die + scribe) + 1) / 2) * (die
            + scribe) <= 70_000_000_000_000,
        -POSITION_LIMIT <= axis_position(extent, die, scribe, centered, translation, index)
            <= POSITION_LIMIT,
{
    let cell = die + scribe;
    let n = lane_count(extent, cell);
    vstd::arithmetic::div_mod::lemma_div_is_ordered_by_denominator(extent, 10, cell);
    vstd::arithmetic::div_mod::lemma_div_is_ordered(extent, 600_000, 10);
    let k = index - (n + 1) / 2;
    assert(-30_001 <= k <= 60_000);
    assert(-70_000_000_000_000 <= k * cell <= 70_000_000_000_000) by (nonlinear_arith)
        requires
            -30_001 <= k <= 60_000,
            10 <= cell <= 1_000_010_000,
    ;
}

impl Wafer {
    /// The configuration is one the layout engine accepts: a die between
    /// the minimum dimension and `LENGTH_LIMIT`, scribe lanes within
    /// `[0, MAXIMUM_SCRIBE_WIDTH]`, an edge loss below half the smaller
    /// surface dimension, and a translation within `LENGTH_LIMIT`.
    pub open spec fn valid(self) -> bool {
        &&& self.die.valid()
        &&& 0 <= self.scribe_lanes.0 <= MAXIMUM_SCRIBE_WIDTH
        &&& 0 <= self.scribe_lanes.1 <= MAXIMUM_SCRIBE_WIDTH
        &&& 0 <= self.edge_loss
        &&& 2 * self.edge_loss < self.shape.spec_max_width()
        &&& 2 * self.edge_loss < self.shape.spec_max_height()
        &&& -LENGTH_LIMIT <= self.translation.0 <= LENGTH_LIMIT
        &&& -LENGTH_LIMIT <= self.translation.1 <= LENGTH_LIMIT
    }

    /// Tests `valid`.
    pub fn is_valid(&self) -> (r: bool)
        ensures
            r == self.valid(),
    {
        let w = self.die.width();
        let h = self.die.height();
        let die_ok = MINIMUM_DIE_DIMENSION <= w && w <= LENGTH_LIMIT && MINIMUM_DIE_DIMENSION <= h
            && h <= LENGTH_LIMIT;
        let (sx, sy) = self.scribe_lanes;
        let scribe_ok = 0 <= sx && sx <= MAXIMUM_SCRIBE_WIDTH && 0 <= sy && sy
            <= MAXIMUM_SCRIBE_WIDTH;
        // `2 * edge_loss < extent`, in a form that cannot overflow
        let e = self.edge_loss;
        let half_width = (self.shape.max_width() + 1) / 2;
        let half_height = (self.shape.max_height() + 1) / 2;
        let edge_ok = 0 <= e && e < half_width && e < half_height;
        let (tx, ty) = self.translation;
        let translation_ok = -LENGTH_LIMIT <= tx && tx <= LENGTH_LIMIT && -LENGTH_LIMIT <= ty && ty
            <= LENGTH_LIMIT;
        die_ok && scribe_ok && edge_ok && translation_ok
    }

    /// The repeat period of the lattice: die plus scribe lane on each axis.
    pub open spec fn spec_reticle(self) -> Die {
        Die::Rectangle {
            width: (self.die.spec_width() + self.scribe_lanes.0) as i64,
            height: (self.die.spec_height() + self.scribe_lanes.1) as i64,
        }
    }

    /// Whole repeat periods across the surface's width.
    pub open spec fn horizontal(self) -> int {
        lane_count(
            self.shape.spec_max_width() as int,
            self.die.spec_width() + self.scribe_lanes.0,
        )
    }

    /// Whole repeat periods across the surface's height.
    pub open spec fn vertical(self) -> int {
        lane_count(
            self.shape.spec_max_height() as int,
            self.die.spec_height() + self.scribe_lanes.1,
        )
    }

    /// Bottom-left corner of the die at lattice index `(x, y)`.
    pub open spec fn cell(self, x: int, y: int) -> Coordinate {
        Coordinate {
            x: axis_position(
                self.shape.spec_max_width() as int,
                self.die.spec_width() as int,
                self.scribe_lanes.0 as int,
                self.centered,
                self.translation.0 as int,
                x,
            ) as i64,
            y: axis_position(
                self.shape.spec_max_height() as int,
                self.die.spec_height() as int,
                self.scribe_lanes.1 as int,
                self.centered,
                self.translation.1 as int,
                y,
            ) as i64,
        }
    }

    /// The die's footprint with its bottom-left corner at `coord`.
    pub open spec fn footprint(self, coord: Coordinate) -> Rectangle {
        Rectangle::spec_new(coord, self.die.spec_width() as int, self.die.spec_height() as int)
    }

    /// Four-corner tests of the footprint at `coord`: against the outer
    /// boundary, then against the inner one. Each is (all corners, some
    /// corner).
    pub open spec fn containment(self, coord: Coordinate) -> ((bool, bool), (bool, bool)) {
        let footprint = self.footprint(coord);
        match self.shape {
            Shape::Wafer(diameter) => {
                let radius = diameter.spec_diameter() / 2;
                let center = Coordinate { x: radius as i64, y: radius as i64 };
                (
                    footprint.spec_within_radius(center, radius as int),
                    footprint.spec_within_radius(center, radius - self.edge_loss),
                )
            },
            Shape::Panel(panel) => {
                let (width, height) = panel.spec_dimensions();
                let e = self.edge_loss;
                let outer = Rectangle::spec_new(Coordinate { x: 0, y: 0 }, width as int, height as int);
                let inner = Rectangle::spec_new(
                    Coordinate { x: e, y: e },
                    width - 2 * e,
                    height - 2 * e,
                );
                (footprint.spec_within_rectangle(outer), footprint.spec_within_rectangle(inner))
            },
        }
    }

    /// The classification rule.
    pub open spec fn spec_die_type(self, coord: Coordinate) -> DieType {
        let (outer, inner) = self.containment(coord);
        if inner.0 {
            DieType::Complete
        } else if outer.0 {
            if inner.1 {
                DieType::Partial
            } else {
                DieType::Wasted
            }
        } else {
            DieType::Absent
        }
    }

    /// The grid: column `x` in `0..=horizontal`, row `y` in `0..=vertical`,
    /// each entry the classification and bottom-left corner of that die.
    pub open spec fn layout(self) -> Seq<Seq<(DieType, Coordinate)>> {
        Seq::new(
            (self.horizontal() + 1) as nat,
            |x: int|
                Seq::new(
                    (self.vertical() + 1) as nat,
                    |y: int| (self.spec_die_type(self.cell(x, y)), self.cell(x, y)),
                ),
        )
    }

    /// Lattice positions and their footprints stay within the bounds that
    /// the containment tests accept.
    pub proof fn lemma_cell_bounds(self, x: int, y: int)
        requires
            self.valid(),
            0 <= x <= self.horizontal(),
            0 <= y <= self.vertical(),
        ensures
            self.cell(x, y).x == axis_position(
                self.shape.spec_max_width() as int,
                self.die.spec_width() as int,
                self.scribe_lanes.0 as int,
                self.centered,
                self.translation.0 as int,
                x,
            ),
            self.cell(x, y).y == axis_position(
                self.shape.spec_max_height() as int,
                self.die.spec_height() as int,
                self.scribe_lanes.1 as int,
                self.centered,
                self.translation.1 as int,
                y,
            ),
            -POSITION_LIMIT <= self.cell(x, y).x <= POSITION_LIMIT,
            -POSITION_LIMIT <= self.cell(x, y).y <= POSITION_LIMIT,
    {
        self.shape.lemma_extent();
        lemma_axis_bounds(
            self.shape.spec_max_width() as int,
            self.die.spec_width() as int,
            self.scribe_lanes.0 as int,
            self.centered,
            self.translation.0 as int,
            x,
        );
        lemma_axis_bounds(
            self.shape.spec_max_height() as int,
            self.die.spec_height() as int,
            self.scribe_lanes.1 as int,
            self.centered,
            self.translation.1 as int,
            y,
        );
    }

    /// The repeat period of the lattice.
    fn reticle(&self) -> (r: Die)
        requires
            self.valid(),
        ensures
            r == self.spec_reticle(),
    {
        Die::Rectangle {
            width: self.die.width() + self.scribe_lanes.0,
            height: self.die.height() + self.scribe_lanes.1,
        }
    }

    /// Lowers the critical area to the die's area where it exceeds it.
    pub fn clamp_critical_area(&mut self)
        requires
            old(self).die.valid(),
        ensures
            final(self).critical_area == (if old(self).critical_area
                < old(self).die.spec_area() {
                old(self).critical_area as int
            } else {
                old(self).die.spec_area()
            }),
            *final(self) == (Wafer { critical_area: final(self).critical_area, ..*old(self) }),
    {
        let area = self.die.area();
        if area < self.critical_area {
            self.critical_area = area;
        }
    }

    /// Classifies the die whose bottom-left corner is `die_coord`.
    fn die_type(&self, die_coord: &Coordinate) -> (r: DieType)
        requires
            self.valid(),
            -POSITION_LIMIT <= die_coord.x <= POSITION_LIMIT,
            -POSITION_LIMIT <= die_coord.y <= POSITION_LIMIT,
        ensures
            r == self.spec_die_type(*die_coord),
    {
        let die = Rectangle::new(die_coord, self.die.width(), self.die.height());
        let (within, within_inner) = match self.shape {
            Shape::Wafer(diameter) => {
                let radius = diameter.diameter() / 2;
                let center = Coordinate { x: radius, y: radius };
                (
                    die.within_radius(&center, radius),
                    die.within_radius(&center, radius - self.edge_loss),
                )
            },
            Shape::Panel(panel) => {
                let (width, height) = panel.dimensions();
                let edge_loss = self.edge_loss;
                let outer = Rectangle::new(&Coordinate { x: 0, y: 0 }, width, height);
                let inner = Rectangle::new(
                    &Coordinate { x: edge_loss, y: edge_loss },
                    width - 2 * edge_loss,
                    height - 2 * edge_loss,
                );
                (die.within_rectangle(&outer), die.within_rectangle(&inner))
            },
        };
        if within_inner.0 {
            DieType::Complete
        } else if within.0 {
            if within_inner.1 {
                DieType::Partial
            } else {
                DieType::Wasted
            }
        } else {
            DieType::Absent
        }
    }

    /// Every column of the grid has the same length, one more than the
    /// number of whole repeat periods across the height, and there is one
    /// column more than the periods across the width.
    pub proof fn lemma_layout_rectangular(self)
        requires
            self.valid(),
        ensures
            self.layout().len() == self.horizontal() + 1,
            forall|x: int|
                0 <= x < self.layout().len() ==> (#[trigger] self.layout()[x]).len()
                    == self.layout()[0].len(),
            self.layout()[0].len() == self.vertical() + 1,
    {
        self.shape.lemma_extent();
        vstd::arithmetic::div_mod::lemma_div_pos_is_pos(
            self.shape.spec_max_width() as int,
            self.die.spec_width() + self.scribe_lanes.0,
        );
        vstd::arithmetic::div_mod::lemma_div_pos_is_pos(
            self.shape.spec_max_height() as int,
            self.die.spec_height() + self.scribe_lanes.1,
        );
    }

    /// The classification rule, for a die at any position: a die classified
    /// `Complete` has all four corners within the inner boundary and within
    /// the outer one, and a die is classified `Absent` exactly when some
    /// corner lies outside the outer boundary.
    pub proof fn lemma_classification(self, coord: Coordinate)
        requires
            self.valid(),
            -POSITION_LIMIT <= coord.x <= POSITION_LIMIT,
            -POSITION_LIMIT <= coord.y <= POSITION_LIMIT,
        ensures
            self.spec_die_type(coord) == DieType::Complete ==> self.containment(coord).0.0
                && self.containment(coord).1.0,
            self.spec_die_type(coord) == DieType::Absent <==> !self.containment(coord).0.0,
    {
        self.shape.lemma_extent();
        match self.shape {
            Shape::Wafer(diameter) => {
                let radius = diameter.spec_diameter() / 2;
                let inner = radius - self.edge_loss;
                assert(square(inner) <= square(radius as int)) by (nonlinear_arith)
                    requires
                        0 <= inner <= radius,
                ;
            },
            Shape::Panel(_) => {},
        }
    }

    /// A die of the grid classified `Complete` has all four corners within
    /// the inner boundary and within the outer boundary.
    pub proof fn lemma_complete_within(self, x: int, y: int)
        requires
            self.valid(),
            0 <= x < self.layout().len(),
            0 <= y < self.layout()[x].len(),
            self.layout()[x][y].0 == DieType::Complete,
        ensures
            self.containment(self.layout()[x][y].1).0.0,
            self.containment(self.layout()[x][y].1).1.0,
    {
        self.lemma_layout_rectangular();
        self.lemma_cell_bounds(x, y);
        self.lemma_classification(self.cell(x, y));
    }

    /// A die of the grid classified `Absent` has some corner outside the
    /// outer boundary.
    pub proof fn lemma_absent_outside(self, x: int, y: int)
        requires
            self.valid(),
            0 <= x < self.layout().len(),
            0 <= y < self.layout()[x].len(),
            self.layout()[x][y].0 == DieType::Absent,
        ensures
            !self.containment(self.layout()[x][y].1).0.0,
    {
        self.lemma_layout_rectangular();
        self.lemma_cell_bounds(x, y);
        self.lemma_classification(self.cell(x, y));
    }

    /// Laying out equal configurations gives equal grids: the grid is a
    /// function of the configuration's value alone.
    pub proof fn lemma_layout_idempotent(
        self,
        other: Wafer,
        first: Vec<Vec<Cell>>,
        second: Vec<Vec<Cell>>,
    )
        requires
            self == other,
            rows_of(first@) == self.layout(),
            rows_of(second@) == other.layout(),
        ensures
            rows_of(first@) == rows_of(second@),
    {
    }

    /// Lays the die lattice over the surface and classifies every position.
    pub fn get_dies(&self) -> (r: Vec<Vec<(DieType, Coordinate)>>)
        requires
            self.valid(),
        ensures
            rows_of(r@) == self.layout(),
    {
        let reticle = self.reticle();
        let max_width = self.shape.max_width();
        let max_height = self.shape.max_height();
        proof {
            self.shape.lemma_extent();
            vstd::arithmetic::div_mod::lemma_div_is_ordered_by_denominator(
                max_width as int,
                10,
                reticle.spec_width() as int,
            );
            vstd::arithmetic::div_mod::lemma_div_is_ordered_by_denominator(
                max_height as int,
                10,
                reticle.spec_height() as int,
            );
        }
        let horizontal = max_width / reticle.width();
        let vertical = max_height / reticle.height();
        let mut grid: Vec<Vec<(DieType, Coordinate)>> = Vec::new();
        let mut x: i64 = 0;
        while x <= horizontal
            invariant
                self.valid(),
                horizontal == self.horizontal(),
                vertical == self.vertical(),
                0 <= horizontal <= 60_000,
                0 <= vertical <= 60_000,
                0 <= x <= horizontal + 1,
                grid@.len() == x,
                forall|i: int| 0 <= i < x ==> (#[trigger] grid@[i])@ == self.layout()[i],
            decreases horizontal + 1 - x,
        {
            let mut column: Vec<(DieType, Coordinate)> = Vec::new();
            let mut y: i64 = 0;
            while y <= vertical
                invariant
                    self.valid(),
                    horizontal == self.horizontal(),
                    vertical == self.vertical(),
                    0 <= horizontal <= 60_000,
                    0 <= vertical <= 60_000,
                    0 <= x <= horizontal,
                    0 <= y <= vertical + 1,
                    column@.len() == y,
                    forall|j: int|
                        0 <= j < y ==> #[trigger] column@[j] == (
                            self.spec_die_type(self.cell(x as int, j)),
                            self.cell(x as int, j),
                        ),
                decreases vertical + 1 - y,
            {
                let coord = self.cell_at(x, y);
                column.push((self.die_type(&coord), coord));
                y = y + 1;
            }
            assert(column@ =~= self.layout()[x as int]);
            grid.push(column);
            x = x + 1;
        }
        assert(rows_of(grid@) =~= self.layout());
        grid
    }

    /// The corner of the die at lattice index `(x, y)`.
    fn cell_at(&self, x: i64, y: i64) -> (r: Coordinate)
        requires
            self.valid(),
            0 <= x <= self.horizontal(),
            0 <= y <= self.vertical(),
        ensures
            r == self.cell(x as int, y as int),
            -POSITION_LIMIT <= r.x <= POSITION_LIMIT,
            -POSITION_LIMIT <= r.y <= POSITION_LIMIT,
    {
        proof {
            self.lemma_cell_bounds(x as int, y as int);
            self.shape.lemma_extent();
        }
        let px = axis_position_exec(
            self.shape.max_width(),
            self.die.width(),
            self.scribe_lanes.0,
            self.centered,
            self.translation.0,
            x,
        );
        let py = axis_position_exec(
            self.shape.max_height(),
            self.die.height(),
            self.scribe_lanes.1,
            self.centered,
            self.translation.1,
            y,
        );
        Coordinate { x: px, y: py }
    }
}

impl Default for Wafer {
    /// An 8 mm die on a 300 mm wafer with 3 mm edge loss, 0.25 mm scribe
    /// lanes, 0.1 defects per square centimetre and the die's whole area as
    /// critical area.
    fn default() -> (r: Wafer)
        ensures
            r == (Wafer {
                critical_area: 64_000_000,
                shape: Shape::Wafer(crate::shape::Diameter::Twelve),
                edge_loss: 3_000,
                defect_rate: 100,
                scribe_lanes: (250, 250),
                translation: (0, 0),
                centered: false,
                die: Die::Rectangle { width: 8_000, height: 8_000 },
                yield_model: YieldModel::Poisson,
            }),
            r.valid(),
    {
        let die = Die::Rectangle { width: 8_000, height: 8_000 };
        assert(die.spec_area() == 64_000_000) by (nonlinear_arith)
            requires
                die.spec_width() == 8_000,
                die.spec_height() == 8_000,
        ;
        Wafer {
            critical_area: die.area(),
            shape: Shape::Wafer(crate::shape::Diameter::Twelve),
            edge_loss: 3_000,
            defect_rate: 100,
            scribe_lanes: (250, 250),
            translation: (0, 0),
            centered: false,
            die,
            yield_model: YieldModel::Poisson,
        }
    }
}

fn axis_position_exec(
    extent: i64,
    die: i64,
    scribe: i64,
    centered: bool,
    translation: i64,
    index: i64,
) -> (r: i64)
    requires
        51_000 <= extent <= 600_000,
        MINIMUM_DIE_DIMENSION <= die <= LENGTH_LIMIT,
        0 <= scribe <= MAXIMUM_SCRIBE_WIDTH,
        -LENGTH_LIMIT <= translation <= LENGTH_LIMIT,
        0 <= index <= lane_count(extent as int, die + scribe),
    ensures
        r == axis_position(
            extent as int,
            die as int,
            scribe as int,
            centered,
            translation as int,
            index as int,
        ),
{
    proof {
        lemma_axis_bounds(
            extent as int,
            die as int,
            scribe as int,
            centered,
            translation as int,
            index as int,
        );
    }
    let cell = die + scribe;
    let n = extent / cell;
    let offset = if centered == (n % 2 == 0) {
        scribe / 2
    } else {
        -(die / 2)
    };
    extent / 2 + (index - (n + 1) / 2) * cell + offset + translation
}

} // verus!
