use die_yield::calculator::{Calculator, Component, Message};
use die_yield::die::Die;
use die_yield::shape::{Diameter, Panel, Shape, ShapeOption};
use die_yield::wafer::Wafer;
use die_yield::yield_model::YieldModel;

#[test]
fn editor_starts_from_defaults() {
    let calc = Calculator::default();
    assert_eq!(calc.wafer, Wafer::default());
    assert!(calc.reticle_limit);
    assert!(calc.simple_critical_area);
    assert!(!calc.scribe_equal);
}

#[test]
fn square_toggle_collapses_to_smaller_dimension() {
    let mut calc = Calculator::default();
    calc.update(Message::NumberInput(Component::DieWidth, 10_000));
    calc.update(Message::NumberInput(Component::DieHeight, 15_000));
    assert_eq!(calc.wafer.die, Die::Rectangle { width: 10_000, height: 15_000 });
    assert_eq!(calc.wafer.critical_area, 150_000_000);
    calc.update(Message::Checkbox(Component::DieWidth, true));
    assert_eq!(calc.wafer.die, Die::Square(10_000));
    assert_eq!(calc.wafer.critical_area, 100_000_000);
    calc.update(Message::Checkbox(Component::DieWidth, false));
    assert_eq!(calc.wafer.die, Die::Rectangle { width: 10_000, height: 10_000 });
}

#[test]
fn reticle_limit_clamps_die_when_switched_on() {
    let mut calc = Calculator::default();
    calc.update(Message::Checkbox(Component::Reticle, false));
    assert!(!calc.reticle_limit);
    calc.update(Message::NumberInput(Component::DieWidth, 40_000));
    assert_eq!(calc.wafer.die, Die::Rectangle { width: 40_000, height: 8_000 });
    calc.update(Message::Checkbox(Component::Reticle, true));
    assert!(calc.reticle_limit);
    assert_eq!(calc.wafer.die, Die::Rectangle { width: 33_000, height: 8_000 });
    assert_eq!(calc.wafer.critical_area, 264_000_000);
}

#[test]
fn die_edits_respect_minimum_dimension() {
    let mut calc = Calculator::default();
    calc.update(Message::NumberInput(Component::DieHeight, 0));
    assert_eq!(calc.wafer.die, Die::Rectangle { width: 8_000, height: 10 });
}

#[test]
fn critical_area_is_capped_at_die_area() {
    let mut calc = Calculator::default();
    calc.update(Message::Checkbox(Component::CriticalArea, false));
    calc.update(Message::NumberInput(Component::CriticalArea, 1_000_000));
    assert_eq!(calc.wafer.critical_area, 1_000_000);
    calc.update(Message::NumberInput(Component::CriticalArea, 900_000_000));
    assert_eq!(calc.wafer.critical_area, 64_000_000);
    calc.update(Message::NumberInput(Component::CriticalArea, 2_000_000));
    calc.update(Message::NumberInput(Component::DieWidth, 1_000));
    // die area fell to 8 mm²; the critical area follows it down
    assert_eq!(calc.wafer.critical_area, 2_000_000);
    calc.update(Message::NumberInput(Component::DieHeight, 1_000));
    assert_eq!(calc.wafer.critical_area, 1_000_000);
}

#[test]
fn simple_critical_area_tracks_die() {
    let mut calc = Calculator::default();
    calc.update(Message::NumberInput(Component::CriticalArea, 5));
    assert_eq!(calc.wafer.critical_area, 64_000_000);
    calc.update(Message::NumberInput(Component::DieWidth, 4_000));
    assert_eq!(calc.wafer.critical_area, 32_000_000);
}

#[test]
fn scribe_lanes_are_capped_and_linked() {
    let mut calc = Calculator::default();
    calc.update(Message::NumberInput(Component::ScribeHorizontal, 20_000));
    assert_eq!(calc.wafer.scribe_lanes, (10_000, 250));
    calc.update(Message::NumberInput(Component::ScribeVertical, 400));
    assert_eq!(calc.wafer.scribe_lanes, (10_000, 400));
    calc.update(Message::Checkbox(Component::ScribeHorizontal, true));
    assert!(calc.scribe_equal);
    assert_eq!(calc.wafer.scribe_lanes, (10_000, 10_000));
    calc.update(Message::NumberInput(Component::ScribeHorizontal, 300));
    assert_eq!(calc.wafer.scribe_lanes, (300, 300));
}

#[test]
fn shape_edits() {
    let mut calc = Calculator::default();
    calc.update(Message::ShapeOption(ShapeOption::Panel));
    assert_eq!(calc.wafer.shape, Shape::Panel(Panel::TwelveByTwelve));
    calc.update(Message::Shape(Shape::Panel(Panel::EighteenByTwentyFour)));
    assert_eq!(calc.wafer.shape, Shape::Panel(Panel::EighteenByTwentyFour));
    calc.update(Message::ShapeOption(ShapeOption::Wafer));
    assert_eq!(calc.wafer.shape, Shape::Wafer(Diameter::Twelve));
}

#[test]
fn plain_value_edits() {
    let mut calc = Calculator::default();
    calc.update(Message::Center(true));
    calc.update(Message::NumberInput(Component::DefectRate, 250));
    calc.update(Message::NumberInput(Component::EdgeLoss, 5_000));
    calc.update(Message::NumberInput(Component::TranslateHorizontal, -1_200));
    calc.update(Message::NumberInput(Component::TranslateVertical, 700));
    calc.update(Message::YieldModel(YieldModel::Seeds));
    assert!(calc.wafer.centered);
    assert_eq!(calc.wafer.defect_rate, 250);
    assert_eq!(calc.wafer.edge_loss, 5_000);
    assert_eq!(calc.wafer.translation, (-1_200, 700));
    assert_eq!(calc.wafer.yield_model, YieldModel::Seeds);
    // inputs without a rule of their own change nothing
    let before = calc;
    calc.update(Message::NumberInput(Component::Reticle, 3));
    calc.update(Message::Checkbox(Component::EdgeLoss, true));
    assert_eq!(calc, before);
}

#[test]
fn oversized_die_edit_is_rejected() {
    let message = Message::NumberInput(Component::DieWidth, 2_000_000_000);
    assert!(!message.is_valid());
    assert!(Message::NumberInput(Component::DefectRate, 2_000_000_000).is_valid());
}
