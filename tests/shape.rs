use die_yield::shape::{Diameter, Panel, Shape, ShapeOption};
use die_yield::yield_model::YieldModel;

#[test]
fn standard_diameters_in_order() {
    let all: Vec<i64> = Diameter::all().into_iter().map(|d| d.diameter()).collect();
    assert_eq!(all, vec![51_000, 76_000, 100_000, 125_000, 150_000, 200_000, 300_000, 450_000]);
    assert_eq!(Diameter::default(), Diameter::Twelve);
}

#[test]
fn standard_panels_in_order() {
    let all: Vec<(i64, i64)> = Panel::all().into_iter().map(|p| p.dimensions()).collect();
    assert_eq!(
        all,
        vec![
            (300_000, 300_000),
            (305_000, 457_000),
            (457_000, 457_000),
            (457_000, 600_000),
            (510_000, 515_000),
            (600_000, 600_000),
        ]
    );
    assert_eq!(Panel::default(), Panel::TwelveByTwelve);
}

#[test]
fn bounding_dimensions() {
    let wafer = Shape::Wafer(Diameter::Eight);
    assert_eq!(wafer.max_width(), 200_000);
    assert_eq!(wafer.max_height(), 200_000);
    let panel = Shape::Panel(Panel::TwentyOneByTwentyOne);
    assert_eq!(panel.max_width(), 510_000);
    assert_eq!(panel.max_height(), 515_000);
    assert_eq!(Shape::default(), Shape::Wafer(Diameter::Twelve));
}

#[test]
fn shape_conversions() {
    assert_eq!(Shape::from(Diameter::Six), Shape::Wafer(Diameter::Six));
    assert_eq!(Shape::from(Panel::EighteenByEighteen), Shape::Panel(Panel::EighteenByEighteen));
    assert_eq!(ShapeOption::from(Shape::Wafer(Diameter::Two)), ShapeOption::Wafer);
    assert_eq!(ShapeOption::from(Shape::Panel(Panel::TwelveByTwelve)), ShapeOption::Panel);
    assert_eq!(ShapeOption::all(), vec![ShapeOption::Wafer, ShapeOption::Panel]);
    assert_eq!(ShapeOption::default(), ShapeOption::Wafer);
}

#[test]
fn yield_models_in_order() {
    assert_eq!(
        YieldModel::all(),
        vec![
            YieldModel::Poisson,
            YieldModel::Murphy,
            YieldModel::Rectangular,
            YieldModel::Moore,
            YieldModel::Seeds,
        ]
    );
    assert_eq!(YieldModel::default(), YieldModel::Poisson);
}
