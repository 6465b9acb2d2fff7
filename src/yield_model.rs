//! The yield model tag and the defect load that every model is evaluated on.
use vstd::prelude::*;

use crate::wafer::Wafer;

verus! {

/// The parametric yield models; each maps the expected number of defects
/// per die, `d`, to the fraction of functional dies.
#[derive(Clone, Copy, Debug, PartialEq, Eq, Structural)]
pub enum YieldModel {
    /// `exp(-d)`
    Poisson,
    /// `((1 - exp(-d)) / d)^2`, 1 at `d = 0`
    Murphy,
    /// `(1 - exp(-2d)) / (2d)`, 1 at `d = 0`
    Rectangular,
    /// `exp(-sqrt(d))`
    Moore,
    /// `1 / (1 + d)`
    Seeds,
}

impl YieldModel {
    /// Every model, in the order a picker lists them.
    pub fn all() -> (r: Vec<YieldModel>)
        ensures
            r@ == seq![
                YieldModel::Poisson,
                YieldModel::Murphy,
                YieldModel::Rectangular,
                YieldModel::Moore,
                YieldModel::Seeds,
            ],
    {
        vec![
            YieldModel::Poisson,
            YieldModel::Murphy,
            YieldModel::Rectangular,
            YieldModel::Moore,
            YieldModel::Seeds,
        ]
    }
}

impl Default for YieldModel {
    fn default() -> (r: YieldModel)
        ensures
            r == YieldModel::Poisson,
    {
        YieldModel::Poisson
    }
}

/// The defect load `d` that the models take is `defect_load / DEFECT_SCALE`:
/// critical area in square micrometres times defect rate in thousandths of a
/// defect per square centimetre, over the scale that turns square
/// micrometres into square millimetres, thousandths into units, and the
/// percentage-style rate into a fraction.
pub const DEFECT_SCALE: i128 = 100_000_000_000;

/// `critical_area * defect_rate`, clamped at zero.
pub open spec fn spec_defect_load(critical_area: int, defect_rate: int) -> int {
    if critical_area * defect_rate < 0 {
        0
    } else {
        critical_area * defect_rate
    }
}

impl Wafer {
    /// The numerator of the defect load `d`, never negative, so that every
    /// model is evaluated at `d >= 0`.
    pub fn defect_load(&self) -> (r: i128)
        ensures
            r == spec_defect_load(self.critical_area as int, self.defect_rate as int),
            r >= 0,
    {
        let a = self.critical_area as i128;
        let b = self.defect_rate as i128;
        assert(-0x4000_0000_0000_0000_0000_0000_0000_0000 <= a * b
            <= 0x4000_0000_0000_0000_0000_0000_0000_0000) by (nonlinear_arith)
            requires
                -0x8000_0000_0000_0000 <= a <= 0x8000_0000_0000_0000,
                -0x8000_0000_0000_0000 <= b <= 0x8000_0000_0000_0000,
        ;
        let product = a * b;
        if product < 0 {
            0
        } else {
            product
        }
    }
}

} // verus!
