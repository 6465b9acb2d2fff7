//! The fabrication surface: a circular wafer of a standard diameter or a
//! rectangular panel of a standard size. Dimensions are in micrometres.
use vstd::prelude::*;

verus! {

/// Standard wafer diameters.
#[derive(Clone, Copy, Debug, PartialEq, Eq, Structural)]
pub enum Diameter {
    Two,
    Three,
    Four,
    Five,
    Six,
    Eight,
    Twelve,
    Eighteen,
}

impl Diameter {
    pub open spec fn spec_diameter(self) -> i64 {
        match self {
            Diameter::Two => 51_000,
            Diameter::Three => 76_000,
            Diameter::Four => 100_000,
            Diameter::Five => 125_000,
            Diameter::Six => 150_000,
            Diameter::Eight => 200_000,
            Diameter::Twelve => 300_000,
            Diameter::Eighteen => 450_000,
        }
    }

    /// Every standard diameter, smallest first.
    pub fn all() -> (r: Vec<Diameter>)
        ensures
            r@ == seq![
                Diameter::Two,
                Diameter::Three,
                Diameter::Four,
                Diameter::Five,
                Diameter::Six,
                Diameter::Eight,
                Diameter::Twelve,
                Diameter::Eighteen,
            ],
    {
        vec![
            Diameter::Two,
            Diameter::Three,
            Diameter::Four,
            Diameter::Five,
            Diameter::Six,
            Diameter::Eight,
            Diameter::Twelve,
            Diameter::Eighteen,
        ]
    }

    /// The diameter in micrometres.
    #[verifier::when_used_as_spec(spec_diameter)]
    pub fn diameter(self) -> (r: i64)
        ensures
            r == self.spec_diameter(),
    {
        match self {
            Diameter::Two => 51_000,
            Diameter::Three => 76_000,
            Diameter::Four => 100_000,
            Diameter::Five => 125_000,
            Diameter::Six => 150_000,
            Diameter::Eight => 200_000,
            Diameter::Twelve => 300_000,
            Diameter::Eighteen => 450_000,
        }
    }
}

impl Default for Diameter {
    fn default() -> (r: Diameter)
        ensures
            r == Diameter::Twelve,
    {
        Diameter::Twelve
    }
}

/// Standard panel sizes.
#[derive(Clone, Copy, Debug, PartialEq, Eq, Structural)]
pub enum Panel {
    TwelveByTwelve,
    TwelveByEighteen,
    EighteenByEighteen,
    EighteenByTwentyFour,
    TwentyOneByTwentyOne,
    TwentyFourByTwentyFour,
}

impl Panel {
    pub open spec fn spec_dimensions(self) -> (i64, i64) {
        match self {
            Panel::TwelveByTwelve => (300_000, 300_000),
            Panel::TwelveByEighteen => (305_000, 457_000),
            Panel::EighteenByEighteen => (457_000, 457_000),
            Panel::EighteenByTwentyFour => (457_000, 600_000),
            Panel::TwentyOneByTwentyOne => (510_000, 515_000),
            Panel::TwentyFourByTwentyFour => (600_000, 600_000),
        }
    }

    /// Every standard panel size.
    pub fn all() -> (r: Vec<Panel>)
        ensures
            r@ == seq![
                Panel::TwelveByTwelve,
                Panel::TwelveByEighteen,
                Panel::EighteenByEighteen,
                Panel::EighteenByTwentyFour,
                Panel::TwentyOneByTwentyOne,
                Panel::TwentyFourByTwentyFour,
            ],
    {
        vec![
            Panel::TwelveByTwelve,
            Panel::TwelveByEighteen,
            Panel::EighteenByEighteen,
            Panel::EighteenByTwentyFour,
            Panel::TwentyOneByTwentyOne,
            Panel::TwentyFourByTwentyFour,
        ]
    }

    /// (width, height) in micrometres.
    #[verifier::when_used_as_spec(spec_dimensions)]
    pub fn dimensions(self) -> (r: (i64, i64))
        ensures
            r == self.spec_dimensions(),
    {
        match self {
            Panel::TwelveByTwelve => (300_000, 300_000),
            Panel::TwelveByEighteen => (305_000, 457_000),
            Panel::EighteenByEighteen => (457_000, 457_000),
            Panel::EighteenByTwentyFour => (457_000, 600_000),
            Panel::TwentyOneByTwentyOne => (510_000, 515_000),
            Panel::TwentyFourByTwentyFour => (600_000, 600_000),
        }
    }
}

impl Default for Panel {
    fn default() -> (r: Panel)
        ensures
            r == Panel::TwelveByTwelve,
    {
        Panel::TwelveByTwelve
    }
}

/// The surface that dies are laid out on.
#[derive(Clone, Copy, Debug, PartialEq, Eq, Structural)]
pub enum Shape {
    Wafer(Diameter),
    Panel(Panel),
}

impl Shape {
    pub open spec fn spec_max_width(self) -> i64 {
        match self {
            Shape::Wafer(diameter) => diameter.spec_diameter(),
            Shape::Panel(panel) => panel.spec_dimensions().0,
        }
    }

    pub open spec fn spec_max_height(self) -> i64 {
        match self {
            Shape::Wafer(diameter) => diameter.spec_diameter(),
            Shape::Panel(panel) => panel.spec_dimensions().1,
        }
    }

    /// Every surface is between 51 mm and 600 mm on each side.
    pub proof fn lemma_extent(self)
        ensures
            51_000 <= self.spec_max_width() <= 600_000,
            51_000 <= self.spec_max_height() <= 600_000,
    {
    }

    /// Bounding width in micrometres.
    #[verifier::when_used_as_spec(spec_max_width)]
    pub fn max_width(self) -> (r: i64)
        ensures
            r == self.spec_max_width(),
    {
        match self {
            Shape::Wafer(diameter) => diameter.diameter(),
            Shape::Panel(panel) => panel.dimensions().0,
        }
    }

    /// Bounding height in micrometres.
    #[verifier::when_used_as_spec(spec_max_height)]
    pub fn max_height(self) -> (r: i64)
        ensures
            r == self.spec_max_height(),
    {
        match self {
            Shape::Wafer(diameter) => diameter.diameter(),
            Shape::Panel(panel) => panel.dimensions().1,
        }
    }
}

impl Default for Shape {
    fn default() -> (r: Shape)
        ensures
            r == Shape::Wafer(Diameter::Twelve),
    {
        Shape::Wafer(Diameter::Twelve)
    }
}

impl From<Diameter> for Shape {
    fn from(diameter: Diameter) -> (r: Shape)
        ensures
            r == Shape::Wafer(diameter),
    {
        Shape::Wafer(diameter)
    }
}

impl vstd::std_specs::convert::FromSpecImpl<Diameter> for Shape {
    open spec fn obeys_from_spec() -> bool {
        true
    }

    open spec fn from_spec(diameter: Diameter) -> Shape {
        Shape::Wafer(diameter)
    }
}

impl From<Panel> for Shape {
    fn from(panel: Panel) -> (r: Shape)
        ensures
            r == Shape::Panel(panel),
    {
        Shape::Panel(panel)
    }
}

impl vstd::std_specs::convert::FromSpecImpl<Panel> for Shape {
    open spec fn obeys_from_spec() -> bool {
        true
    }

    open spec fn from_spec(panel: Panel) -> Shape {
        Shape::Panel(panel)
    }
}

/// The kind of surface, without its size.
#[derive(Clone, Copy, Debug, PartialEq, Eq, Structural)]
pub enum ShapeOption {
    Wafer,
    Panel,
}

impl ShapeOption {
    /// Every kind of surface.
    pub fn all() -> (r: Vec<ShapeOption>)
        ensures
            r@ == seq![ShapeOption::Wafer, ShapeOption::Panel],
    {
        vec![ShapeOption::Wafer, ShapeOption::Panel]
    }
}

impl Default for ShapeOption {
    fn default() -> (r: ShapeOption)
        ensures
            r == ShapeOption::Wafer,
    {
        ShapeOption::Wafer
    }
}

impl From<Shape> for ShapeOption {
    fn from(shape: Shape) -> (r: ShapeOption)
        ensures
            r == (match shape {
                Shape::Wafer(_) => ShapeOption::Wafer,
                Shape::Panel(_) => ShapeOption::Panel,
            }),
    {
        match shape {
            Shape::Wafer(_) => ShapeOption::Wafer,
            Shape::Panel(_) => ShapeOption::Panel,
        }
    }
}

impl vstd::std_specs::convert::FromSpecImpl<Shape> for ShapeOption {
    open spec fn obeys_from_spec() -> bool {
        true
    }

    open spec fn from_spec(shape: Shape) -> ShapeOption {
        match shape {
            Shape::Wafer(_) => ShapeOption::Wafer,
            Shape::Panel(_) => ShapeOption::Panel,
        }
    }
}

} // verus!
