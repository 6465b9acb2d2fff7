//! The configuration editor: how each edit of an input changes the
//! configuration. The window that shows the inputs hands every edit to
//! `Calculator::update` and draws whatever configuration comes back.
use vstd::prelude::*;

use crate::die::Die;
use crate::shape::{Diameter, Panel, Shape, ShapeOption};
use crate::util::{min_if, spec_min_if, LENGTH_LIMIT};
use crate::wafer::{Wafer, MAXIMUM_SCRIBE_WIDTH};
use crate::yield_model::YieldModel;

verus! {

/// The inputs of the editor.
#[derive(Clone, Copy, Debug, PartialEq, Eq, Structural)]
pub enum Component {
    DieWidth,
    DieHeight,
    Reticle,
    CriticalArea,
    Shape,
    DefectRate,
    EdgeLoss,
    ScribeHorizontal,
    ScribeVertical,
    TranslateHorizontal,
    TranslateVertical,
}

/// One edit. A number is in the unit of its component: micrometres for
/// lengths, square micrometres for the critical area, thousandths of a
/// defect per square centimetre for the defect rate.
#[derive(Clone, Copy, Debug, PartialEq, Eq, Structural)]
pub enum Message {
    Center(bool),
    ShapeOption(ShapeOption),
    Shape(Shape),
    Checkbox(Component, bool),
    NumberInput(Component, i64),
    YieldModel(YieldModel),
}

impl Message {
    /// A die dimension is entered no larger than `LENGTH_LIMIT`.
    pub open spec fn valid(self) -> bool {
        match self {
            Message::NumberInput(Component::DieWidth, v) => v <= LENGTH_LIMIT,
            Message::NumberInput(Component::DieHeight, v) => v <= LENGTH_LIMIT,
            _ => true,
        }
    }

    /// Tests `valid`.
    pub fn is_valid(&self) -> (r: bool)
        ensures
            r == self.valid(),
    {
        match self {
            Message::NumberInput(Component::DieWidth, v) => *v <= LENGTH_LIMIT,
            Message::NumberInput(Component::DieHeight, v) => *v <= LENGTH_LIMIT,
            _ => true,
        }
    }
}

/// The configuration being edited and the editor's switches.
#[derive(Clone, Copy, Debug, PartialEq, Eq)]
pub struct Calculator {
    pub wafer: Wafer,
    /// Die dimensions stay within the reticle field.
    pub reticle_limit: bool,
    /// The critical area is the whole die area.
    pub simple_critical_area: bool,
    /// Both scribe lanes take the horizontal width.
    pub scribe_equal: bool,
}

pub open spec fn spec_min(a: i64, b: i64) -> i64 {
    if b < a {
        b
    } else {
        a
    }
}

impl Calculator {
    /// The die stays within its dimension bounds.
    pub open spec fn valid(self) -> bool {
        self.wafer.die.valid()
    }

    /// The direct effect of `message`, before the critical area follows the
    /// die.
    pub open spec fn apply(self, message: Message) -> Calculator {
        let w = self.wafer;
        match message {
            Message::Center(b) => Calculator { wafer: Wafer { centered: b, ..w }, ..self },
            Message::Checkbox(c, b) => match c {
                Component::DieWidth => if b {
                    Calculator {
                        wafer: Wafer {
                            die: match w.die {
                                Die::Rectangle { width, height } => Die::Square(
                                    spec_min_if(
                                        self.reticle_limit,
                                        crate::die::min(width, height),
                                        crate::die::RETICLE_SHORT,
                                    ),
                                ),
                                square => square,
                            },
                            ..w
                        },
                        ..self
                    }
                } else {
                    Calculator {
                        wafer: Wafer {
                            die: Die::Rectangle {
                                width: w.die.spec_width(),
                                height: w.die.spec_height(),
                            },
                            ..w
                        },
                        ..self
                    }
                },
                Component::Reticle => if b {
                    Calculator {
                        wafer: Wafer { die: w.die.spec_clamp_reticle(), ..w },
                        reticle_limit: true,
                        ..self
                    }
                } else {
                    Calculator { reticle_limit: false, ..self }
                },
                Component::CriticalArea => Calculator { simple_critical_area: b, ..self },
                Component::ScribeHorizontal => Calculator {
                    wafer: Wafer { scribe_lanes: (w.scribe_lanes.0, w.scribe_lanes.0), ..w },
                    scribe_equal: b,
                    ..self
                },
                _ => self,
            },
            Message::Shape(shape) => Calculator { wafer: Wafer { shape, ..w }, ..self },
            Message::ShapeOption(option) => Calculator {
                wafer: Wafer {
                    shape: match option {
                        ShapeOption::Wafer => Shape::Wafer(Diameter::Twelve),
                        ShapeOption::Panel => Shape::Panel(Panel::TwelveByTwelve),
                    },
                    ..w
                },
                ..self
            },
            Message::NumberInput(c, v) => match c {
                Component::DieWidth => Calculator {
                    wafer: Wafer { die: w.die.spec_new_width(v), ..w },
                    ..self
                },
                Component::DieHeight => Calculator {
                    wafer: Wafer { die: w.die.spec_new_height(v), ..w },
                    ..self
                },
                Component::CriticalArea => Calculator {
                    wafer: Wafer {
                        critical_area: spec_min_if(
                            !self.simple_critical_area,
                            v,
                            w.die.spec_area() as i64,
                        ),
                        ..w
                    },
                    ..self
                },
                Component::DefectRate => Calculator {
                    wafer: Wafer { defect_rate: v, ..w },
                    ..self
                },
                Component::EdgeLoss => Calculator { wafer: Wafer { edge_loss: v, ..w }, ..self },
                Component::ScribeHorizontal => {
                    let s = spec_min(v, MAXIMUM_SCRIBE_WIDTH);
                    Calculator {
                        wafer: Wafer {
                            scribe_lanes: (
                                s,
                                if self.scribe_equal {
                                    s
                                } else {
                                    w.scribe_lanes.1
                                },
                            ),
                            ..w
                        },
                        ..self
                    }
                },
                Component::ScribeVertical => Calculator {
                    wafer: Wafer {
                        scribe_lanes: (w.scribe_lanes.0, spec_min(v, MAXIMUM_SCRIBE_WIDTH)),
                        ..w
                    },
                    ..self
                },
                Component::TranslateHorizontal => Calculator {
                    wafer: Wafer { translation: (v, w.translation.1), ..w },
                    ..self
                },
                Component::TranslateVertical => Calculator {
                    wafer: Wafer { translation: (w.translation.0, v), ..w },
                    ..self
                },
                _ => self,
            },
            Message::YieldModel(m) => Calculator { wafer: Wafer { yield_model: m, ..w }, ..self },
        }
    }

    /// After every edit the critical area is the die area when it is simple,
    /// and no more than the die area otherwise.
    pub open spec fn settle(self) -> Calculator {
        let area = self.wafer.die.spec_area();
        Calculator {
            wafer: Wafer {
                critical_area: if self.simple_critical_area || area < self.wafer.critical_area {
                    area as i64
                } else {
                    self.wafer.critical_area
                },
                ..self.wafer
            },
            ..self
        }
    }

    /// Applies one edit.
    pub fn update(&mut self, message: Message)
        requires
            old(self).valid(),
            message.valid(),
        ensures
            *final(self) == old(self).apply(message).settle(),
            final(self).valid(),
            final(self).wafer.critical_area <= final(self).wafer.die.spec_area(),
            final(self).simple_critical_area ==> final(self).wafer.critical_area
                == final(self).wafer.die.spec_area(),
    {
        match message {
            Message::Center(b) => self.wafer.centered = b,
            Message::Checkbox(c, b) => match c {
                Component::DieWidth => {
                    if b {
                        self.wafer.die = self.wafer.die.square(self.reticle_limit);
                    } else {
                        self.wafer.die = self.wafer.die.rectangle();
                    }
                },
                Component::Reticle => {
                    if b {
                        self.reticle_limit = true;
                        self.wafer.die = self.wafer.die.clamp_reticle();
                    } else {
                        self.reticle_limit = false;
                    }
                },
                Component::CriticalArea => self.simple_critical_area = b,
                Component::ScribeHorizontal => {
                    self.scribe_equal = b;
                    self.wafer.scribe_lanes = (self.wafer.scribe_lanes.0, self.wafer.scribe_lanes.0);
                },
                _ => {},
            },
            Message::Shape(shape) => self.wafer.shape = shape,
            Message::ShapeOption(option) => {
                self.wafer.shape = match option {
                    ShapeOption::Wafer => Shape::Wafer(Diameter::Twelve),
                    ShapeOption::Panel => Shape::Panel(Panel::TwelveByTwelve),
                };
            },
            Message::NumberInput(c, v) => match c {
                Component::DieWidth => self.wafer.die = self.wafer.die.new_width(v),
                Component::DieHeight => self.wafer.die = self.wafer.die.new_height(v),
                Component::CriticalArea => {
                    let area = self.wafer.die.area();
                    self.wafer.critical_area = min_if(!self.simple_critical_area, v, area);
                },
                Component::DefectRate => self.wafer.defect_rate = v,
                Component::EdgeLoss => self.wafer.edge_loss = v,
                Component::ScribeHorizontal => {
                    let s = if MAXIMUM_SCRIBE_WIDTH < v {
                        MAXIMUM_SCRIBE_WIDTH
                    } else {
                        v
                    };
                    let vertical = if self.scribe_equal {
                        s
                    } else {
                        self.wafer.scribe_lanes.1
                    };
                    self.wafer.scribe_lanes = (s, vertical);
                },
                Component::ScribeVertical => {
                    let s = if MAXIMUM_SCRIBE_WIDTH < v {
                        MAXIMUM_SCRIBE_WIDTH
                    } else {
                        v
                    };
                    self.wafer.scribe_lanes = (self.wafer.scribe_lanes.0, s);
                },
                Component::TranslateHorizontal => {
                    self.wafer.translation = (v, self.wafer.translation.1);
                },
                Component::TranslateVertical => {
                    self.wafer.translation = (self.wafer.translation.0, v);
                },
                _ => {},
            },
            Message::YieldModel(m) => self.wafer.yield_model = m,
        }
        let area = self.wafer.die.area();
        if self.simple_critical_area {
            self.wafer.critical_area = area;
        } else {
            self.wafer.clamp_critical_area();
        }
    }
}

impl Default for Calculator {
    /// The default configuration, under the reticle limit, with the whole
    /// die as critical area and independent scribe lanes.
    fn default() -> (r: Calculator)
        ensures
            r.wafer == (Wafer {
                critical_area: 64_000_000,
                shape: Shape::Wafer(Diameter::Twelve),
                edge_loss: 3_000,
                defect_rate: 100,
                scribe_lanes: (250, 250),
                translation: (0, 0),
                centered: false,
                die: Die::Rectangle { width: 8_000, height: 8_000 },
                yield_model: YieldModel::Poisson,
            }),
            r.reticle_limit,
            r.simple_critical_area,
            !r.scribe_equal,
            r.valid(),
    {
        Calculator {
            wafer: Wafer::default(),
            reticle_limit: true,
            simple_critical_area: true,
            scribe_equal: false,
        }
    }
}

} // verus!
