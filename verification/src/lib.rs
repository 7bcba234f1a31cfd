//! A pricing core for equity and European-option portfolios under layered
//! market scenarios.
//!
//! The library composes a base market-data context with stacked scenario
//! transforms and evaluates measures (price, exposure, greeks, ...) per
//! position.  Every real-valued quantity is represented by the bit pattern of
//! an IEEE-754 double and every computation on such quantities is returned as
//! a symbolic [`expr::Expr`]; a caller evaluates the expression with ordinary
//! floating-point arithmetic.  This keeps the whole of the dispatch, scenario
//! and shift logic — where the composition subtleties live — inside verified
//! code.
use vstd::prelude::*;

pub mod bsmodel;
pub mod calendar;
pub mod dispatcher;
pub mod expr;
pub mod genericpricer;
pub mod error;
pub mod instrument;
pub mod laws;
pub mod lookupctx;
pub mod optionpricer;
pub mod portfolio;
pub mod pricingengine;
pub mod positioncalculator;
pub mod marketdataproviders;
pub mod pricingctx;
pub mod stackedvectorctx;
pub mod stockpricer;
pub mod text;
pub mod transform;

verus! {

/// Copies a vector of plain values element by element.
pub fn copy_vec<T: Copy>(v: &Vec<T>) -> (r: Vec<T>)
    ensures
        r@ == v@,
{
    let mut r: Vec<T> = Vec::new();
    let mut k: usize = 0;
    while k < v.len()
        invariant
            0 <= k <= v@.len(),
            r@ =~= v@.take(k as int),
        decreases v@.len() - k,
    {
        r.push(v[k]);
        k += 1;
    }
    proof {
        assert(r@ =~= v@);
    }
    r
}

} // verus!
