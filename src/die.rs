//! The die: a free rectangle or a square, with its edit rules and the
//! reticle limits that lithography puts on its size.
use vstd::prelude::*;

use crate::shape::Shape;
use crate::util::{min_if, spec_min_if};
use crate::wafer::MINIMUM_DIE_DIMENSION;

verus! {

/// The long edge of the reticle field, in micrometres.
pub const RETICLE_LONG: i64 = 33_000;

/// The short edge of the reticle field, in micrometres.
pub const RETICLE_SHORT: i64 = 26_000;

/// How a die position relates to the usable area of the surface.
#[derive(Clone, Copy, Debug, PartialEq, Eq, Structural)]
pub enum DieType {
    /// Every corner lies within the inner (edge-loss reduced) boundary.
    Complete,
    /// Inside the outer boundary and touching the inner one.
    Partial,
    /// Inside the outer boundary but entirely in the edge-loss margin.
    Wasted,
    /// Some corner lies outside the surface: the position is not placed.
    Absent,
}

/// A die, with its dimensions in micrometres.
#[derive(Clone, Copy, Debug, PartialEq, Eq, Structural)]
pub enum Die {
    Rectangle { width: i64, height: i64 },
    Square(i64),
}

pub open spec fn min(a: i64, b: i64) -> i64 {
    if a <= b {
        a
    } else {
        b
    }
}

impl Die {
    pub open spec fn spec_width(self) -> i64 {
        match self {
            Die::Rectangle { width, .. } => width,
            Die::Square(width) => width,
        }
    }

    pub open spec fn spec_height(self) -> i64 {
        match self {
            Die::Rectangle { height, .. } => height,
            Die::Square(width) => width,
        }
    }

    pub open spec fn spec_area(self) -> int {
        self.spec_width() * self.spec_height()
    }

    /// Both dimensions lie between the minimum die dimension and
    /// `LENGTH_LIMIT`.
    pub open spec fn valid(self) -> bool {
        MINIMUM_DIE_DIMENSION <= self.spec_width() <= crate::util::LENGTH_LIMIT
            && MINIMUM_DIE_DIMENSION <= self.spec_height() <= crate::util::LENGTH_LIMIT
    }

    #[verifier::when_used_as_spec(spec_width)]
    pub fn width(self) -> (r: i64)
        ensures
            r == self.spec_width(),
    {
        match self {
            Die::Rectangle { width, .. } => width,
            Die::Square(width) => width,
        }
    }

    #[verifier::when_used_as_spec(spec_height)]
    pub fn height(self) -> (r: i64)
        ensures
            r == self.spec_height(),
    {
        match self {
            Die::Rectangle { height, .. } => height,
            Die::Square(width) => width,
        }
    }

    /// Area in square micrometres.
    pub fn area(self) -> (r: i64)
        requires
            self.valid(),
        ensures
            r == self.spec_area(),
    {
        let w = self.width();
        let h = self.height();
        assert(w * h <= 1_000_000_000_000_000_000) by (nonlinear_arith)
            requires
                0 <= w <= 1_000_000_000,
                0 <= h <= 1_000_000_000,
        ;
        assert(0 <= w * h) by (nonlinear_arith)
            requires
                0 <= w,
                0 <= h,
        ;
        w * h
    }

    pub open spec fn spec_width_bounds(self, reticle_limit: bool, shape: Shape) -> (i64, i64) {
        if !reticle_limit {
            (MINIMUM_DIE_DIMENSION, shape.spec_max_width())
        } else {
            match self {
                Die::Rectangle { height, .. } => (
                    MINIMUM_DIE_DIMENSION,
                    if height > RETICLE_SHORT {
                        RETICLE_SHORT
                    } else {
                        RETICLE_LONG
                    },
                ),
                Die::Square(_) => (MINIMUM_DIE_DIMENSION, RETICLE_SHORT),
            }
        }
    }

    pub open spec fn spec_height_bounds(self, reticle_limit: bool, shape: Shape) -> (i64, i64) {
        let min = match self {
            Die::Rectangle { .. } => MINIMUM_DIE_DIMENSION,
            Die::Square(width) => width,
        };
        if !reticle_limit {
            (min, shape.spec_max_height())
        } else {
            match self {
                Die::Rectangle { width, .. } => (
                    min,
                    if width > RETICLE_SHORT {
                        RETICLE_SHORT
                    } else {
                        RETICLE_LONG
                    },
                ),
                Die::Square(width) => (min, width),
            }
        }
    }

    /// (minimum, maximum) that an edit of the width may take. Under the
    /// reticle limit the width may reach the long edge unless the height
    /// already exceeds the short edge.
    pub fn width_bounds(self, reticle_limit: bool, shape: Shape) -> (r: (i64, i64))
        ensures
            r == self.spec_width_bounds(reticle_limit, shape),
    {
        if !reticle_limit {
            return (MINIMUM_DIE_DIMENSION, shape.max_width());
        }
        let max = match self {
            Die::Rectangle { height, .. } => {
                if height > RETICLE_SHORT {
                    RETICLE_SHORT
                } else {
                    RETICLE_LONG
                }
            },
            Die::Square(_) => RETICLE_SHORT,
        };
        (MINIMUM_DIE_DIMENSION, max)
    }

    /// (minimum, maximum) that an edit of the height may take. A square's
    /// height follows its width.
    pub fn height_bounds(self, reticle_limit: bool, shape: Shape) -> (r: (i64, i64))
        ensures
            r == self.spec_height_bounds(reticle_limit, shape),
    {
        let min = match self {
            Die::Rectangle { .. } => MINIMUM_DIE_DIMENSION,
            Die::Square(width) => width,
        };
        if !reticle_limit {
            return (min, shape.max_height());
        }
        let max = match self {
            Die::Rectangle { width, .. } => {
                if width > RETICLE_SHORT {
                    RETICLE_SHORT
                } else {
                    RETICLE_LONG
                }
            },
            Die::Square(width) => width,
        };
        (min, max)
    }

    pub open spec fn spec_new_width(self, width: i64) -> Die {
        let width = if width < MINIMUM_DIE_DIMENSION {
            MINIMUM_DIE_DIMENSION
        } else {
            width
        };
        match self {
            Die::Rectangle { height, .. } => Die::Rectangle { width, height },
            Die::Square(_) => Die::Square(width),
        }
    }

    /// The die with a new width, raised to the minimum die dimension; a
    /// square keeps its shape.
    pub fn new_width(self, width: i64) -> (r: Die)
        ensures
            r == self.spec_new_width(width),
    {
        let width = if width < MINIMUM_DIE_DIMENSION {
            MINIMUM_DIE_DIMENSION
        } else {
            width
        };
        match self {
            Die::Rectangle { height, .. } => Die::Rectangle { width, height },
            Die::Square(_) => Die::Square(width),
        }
    }

    pub open spec fn spec_new_height(self, height: i64) -> Die {
        let height = if height < MINIMUM_DIE_DIMENSION {
            MINIMUM_DIE_DIMENSION
        } else {
            height
        };
        match self {
            Die::Rectangle { width, .. } => Die::Rectangle { width, height },
            Die::Square(_) => self,
        }
    }

    /// The die with a new height, raised to the minimum die dimension; a
    /// square is left as it is.
    pub fn new_height(self, height: i64) -> (r: Die)
        ensures
            r == self.spec_new_height(height),
    {
        let height = if height < MINIMUM_DIE_DIMENSION {
            MINIMUM_DIE_DIMENSION
        } else {
            height
        };
        match self {
            Die::Rectangle { width, .. } => Die::Rectangle { width, height },
            square => square,
        }
    }

    pub open spec fn spec_clamp_reticle(self) -> Die {
        match self {
            Die::Rectangle { width, height } => {
                if width >= height {
                    Die::Rectangle { width: min(width, RETICLE_LONG), height: min(height, RETICLE_SHORT) }
                } else {
                    Die::Rectangle { width: min(width, RETICLE_SHORT), height: min(height, RETICLE_LONG) }
                }
            },
            Die::Square(width) => Die::Square(min(width, RETICLE_SHORT)),
        }
    }

    /// The die forced under the reticle: the larger dimension (the width on
    /// a tie) is capped at the long edge and the other at the short edge; a
    /// square is capped at the short edge.
    pub fn clamp_reticle(self) -> (r: Die)
        ensures
            r == self.spec_clamp_reticle(),
            r.spec_width() <= RETICLE_LONG,
            r.spec_height() <= RETICLE_LONG,
            r.spec_width() <= RETICLE_SHORT || r.spec_height() <= RETICLE_SHORT,
    {
        match self {
            Die::Rectangle { width, height } => {
                if width >= height {
                    Die::Rectangle {
                        width: if width < RETICLE_LONG { width } else { RETICLE_LONG },
                        height: if height < RETICLE_SHORT { height } else { RETICLE_SHORT },
                    }
                } else {
                    Die::Rectangle {
                        width: if width < RETICLE_SHORT { width } else { RETICLE_SHORT },
                        height: if height < RETICLE_LONG { height } else { RETICLE_LONG },
                    }
                }
            },
            Die::Square(width) => Die::Square(if width < RETICLE_SHORT { width } else { RETICLE_SHORT }),
        }
    }

    /// A square lifted to a rectangle of the same size; a rectangle is kept.
    pub fn rectangle(self) -> (r: Die)
        ensures
            r == (match self {
                Die::Square(width) => Die::Rectangle { width, height: width },
                rectangle => rectangle,
            }),
            r.spec_width() == self.spec_width(),
            r.spec_height() == self.spec_height(),
    {
        match self {
            Die::Square(width) => Die::Rectangle { width, height: width },
            rectangle => rectangle,
        }
    }

    /// A rectangle collapsed to a square on its smaller dimension, capped at
    /// the short reticle edge when `reticle_limit` holds; a square is kept.
    pub fn square(self, reticle_limit: bool) -> (r: Die)
        ensures
            r == (match self {
                Die::Rectangle { width, height } => Die::Square(
                    spec_min_if(reticle_limit, min(width, height), RETICLE_SHORT),
                ),
                square => square,
            }),
    {
        match self {
            Die::Rectangle { width, height } => {
                let smaller = if width <= height {
                    width
                } else {
                    height
                };
                Die::Square(min_if(reticle_limit, smaller, RETICLE_SHORT))
            },
            square => square,
        }
    }
}

impl Default for Die {
    /// An 8 mm square die, held as a rectangle.
    fn default() -> (r: Die)
        ensures
            r == (Die::Rectangle { width: 8_000, height: 8_000 }),
    {
        Die::Rectangle { width: 8_000, height: 8_000 }
    }
}

} // verus!
