//! Translates per-instrument measure values to per-position values.
use vstd::prelude::*;

use crate::expr::{Expr, BITS_ONE};
use crate::pricingctx::{spec_scale_factor, spec_scaled, Measure, PositionScaling};
use crate::portfolio::Position;

verus! {

/// Applies a measure's scaling policy to a position.
pub struct PositionScaler<'a> {
    pub measure: Measure,
    pub position: &'a Position,
}

impl<'a> PositionScaler<'a> {
    pub fn new(measure: Measure, position: &'a Position) -> (r: Self)
        ensures
            r.measure == measure,
            r.position == position,
    {
        Self { measure, position }
    }

    /// Multiplies the value by the scale factor — the position size for
    /// linear scaling, one otherwise.
    pub fn scale(&self, v: Expr) -> (r: Expr)
        ensures
            r == spec_scaled(self.measure, self.position.size, v),
    {
        let scale_factor: Expr = match self.measure.position_scaling() {
            PositionScaling::NoScaling => Expr::Num(BITS_ONE),
            PositionScaling::Linear => self.position.size.clone(),
        };
        Expr::Mul(Box::new(scale_factor), Box::new(v))
    }
}

} // verus!
