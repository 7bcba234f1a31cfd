//! The Black–Scholes kernel, built symbolically.
use vstd::prelude::*;

use crate::expr::{Expr, BITS_HALF};
use crate::instrument::OptionType;

verus! {

/// The inputs of the Black–Scholes formula.  Spot, time to expiry, rate and
/// vol are themselves measure evaluations; the strike is a double bit
/// pattern.
pub struct BlackScholesParams {
    pub spot: Expr,
    pub strike: u64,
    pub tte: Expr,
    pub r: Expr,
    pub vol: Expr,
}

impl BlackScholesParams {
    pub fn new(spot: Expr, strike: u64, tte: Expr, r: Expr, vol: Expr) -> (res: Self)
        ensures
            res == (BlackScholesParams { spot, strike, tte, r, vol }),
    {
        Self { spot, strike, tte, r, vol }
    }
}

/// `d1 = (ln(S/K) + (r + σ²/2)·T) / (σ·√T)`.
pub open spec fn spec_bs_d1(spot: Expr, strike: u64, tte: Expr, r: Expr, vol: Expr) -> Expr {
    Expr::Div(
        Box::new(
            Expr::Add(
                Box::new(Expr::Ln(Box::new(Expr::Div(Box::new(spot), Box::new(Expr::Num(strike)))))),
                Box::new(
                    Expr::Mul(
                        Box::new(
                            Expr::Add(
                                Box::new(r),
                                Box::new(
                                    Expr::Mul(
                                        Box::new(Expr::Num(BITS_HALF)),
                                        Box::new(Expr::Powi(Box::new(vol), 2)),
                                    ),
                                ),
                            ),
                        ),
                        Box::new(tte),
                    ),
                ),
            ),
        ),
        Box::new(Expr::Mul(Box::new(vol), Box::new(Expr::Sqrt(Box::new(tte))))),
    )
}

/// `d2 = (ln(S/K) + (r − σ²/2)·T) / (σ·√T)`, written out from its own
/// formula rather than as `d1 − σ·√T`: the two agree only to within
/// floating tolerance, and this library fixes one arithmetic exactly.
pub open spec fn spec_bs_d2(spot: Expr, strike: u64, tte: Expr, r: Expr, vol: Expr) -> Expr {
    Expr::Div(
        Box::new(
            Expr::Add(
                Box::new(Expr::Ln(Box::new(Expr::Div(Box::new(spot), Box::new(Expr::Num(strike)))))),
                Box::new(
                    Expr::Mul(
                        Box::new(
                            Expr::Sub(
                                Box::new(r),
                                Box::new(
                                    Expr::Mul(
                                        Box::new(Expr::Num(BITS_HALF)),
                                        Box::new(Expr::Powi(Box::new(vol), 2)),
                                    ),
                                ),
                            ),
                        ),
                        Box::new(tte),
                    ),
                ),
            ),
        ),
        Box::new(Expr::Mul(Box::new(vol), Box::new(Expr::Sqrt(Box::new(tte))))),
    )
}

/// The discount factor `e^(−r·T)`.
pub open spec fn spec_bs_discount(tte: Expr, r: Expr) -> Expr {
    Expr::Exp(Box::new(Expr::Mul(Box::new(Expr::Neg(Box::new(r))), Box::new(tte))))
}

/// Call price `S·Φ(d1) − K·e^(−rT)·Φ(d2)`.
pub open spec fn spec_call_price(spot: Expr, strike: u64, tte: Expr, r: Expr, vol: Expr) -> Expr {
    Expr::Sub(
        Box::new(
            Expr::Mul(
                Box::new(spot),
                Box::new(Expr::NormCdf(Box::new(spec_bs_d1(spot, strike, tte, r, vol)))),
            ),
        ),
        Box::new(
            Expr::Mul(
                Box::new(
                    Expr::Mul(Box::new(Expr::Num(strike)), Box::new(spec_bs_discount(tte, r))),
                ),
                Box::new(Expr::NormCdf(Box::new(spec_bs_d2(spot, strike, tte, r, vol)))),
            ),
        ),
    )
}

/// Put price `K·e^(−rT)·Φ(−d2) − S·Φ(−d1)`.
pub open spec fn spec_put_price(spot: Expr, strike: u64, tte: Expr, r: Expr, vol: Expr) -> Expr {
    Expr::Sub(
        Box::new(
            Expr::Mul(
                Box::new(
                    Expr::Mul(Box::new(Expr::Num(strike)), Box::new(spec_bs_discount(tte, r))),
                ),
                Box::new(
                    Expr::NormCdf(
                        Box::new(Expr::Neg(Box::new(spec_bs_d2(spot, strike, tte, r, vol)))),
                    ),
                ),
            ),
        ),
        Box::new(
            Expr::Mul(
                Box::new(spot),
                Box::new(
                    Expr::NormCdf(
                        Box::new(Expr::Neg(Box::new(spec_bs_d1(spot, strike, tte, r, vol)))),
                    ),
                ),
            ),
        ),
    )
}

/// The Black–Scholes price of a call or put.
pub open spec fn spec_black_scholes(pars: BlackScholesParams, option_type: OptionType) -> Expr {
    match option_type {
        OptionType::Call => spec_call_price(pars.spot, pars.strike, pars.tte, pars.r, pars.vol),
        OptionType::Put => spec_put_price(pars.spot, pars.strike, pars.tte, pars.r, pars.vol),
    }
}

fn bs_d1(pars: &BlackScholesParams) -> (res: Expr)
    ensures
        res == spec_bs_d1(pars.spot, pars.strike, pars.tte, pars.r, pars.vol),
{
    let log_sk = Expr::Ln(
        Box::new(Expr::Div(Box::new(pars.spot.clone()), Box::new(Expr::Num(pars.strike)))),
    );
    let scaled_vol = Expr::Mul(
        Box::new(pars.vol.clone()),
        Box::new(Expr::Sqrt(Box::new(pars.tte.clone()))),
    );
    let half_var = Expr::Mul(
        Box::new(Expr::Num(BITS_HALF)),
        Box::new(Expr::Powi(Box::new(pars.vol.clone()), 2)),
    );
    Expr::Div(
        Box::new(
            Expr::Add(
                Box::new(log_sk),
                Box::new(
                    Expr::Mul(
                        Box::new(Expr::Add(Box::new(pars.r.clone()), Box::new(half_var))),
                        Box::new(pars.tte.clone()),
                    ),
                ),
            ),
        ),
        Box::new(scaled_vol),
    )
}

fn bs_d2(pars: &BlackScholesParams) -> (res: Expr)
    ensures
        res == spec_bs_d2(pars.spot, pars.strike, pars.tte, pars.r, pars.vol),
{
    let log_sk = Expr::Ln(
        Box::new(Expr::Div(Box::new(pars.spot.clone()), Box::new(Expr::Num(pars.strike)))),
    );
    let scaled_vol = Expr::Mul(
        Box::new(pars.vol.clone()),
        Box::new(Expr::Sqrt(Box::new(pars.tte.clone()))),
    );
    let half_var = Expr::Mul(
        Box::new(Expr::Num(BITS_HALF)),
        Box::new(Expr::Powi(Box::new(pars.vol.clone()), 2)),
    );
    Expr::Div(
        Box::new(
            Expr::Add(
                Box::new(log_sk),
                Box::new(
                    Expr::Mul(
                        Box::new(Expr::Sub(Box::new(pars.r.clone()), Box::new(half_var))),
                        Box::new(pars.tte.clone()),
                    ),
                ),
            ),
        ),
        Box::new(scaled_vol),
    )
}

fn discount(pars: &BlackScholesParams) -> (res: Expr)
    ensures
        res == spec_bs_discount(pars.tte, pars.r),
{
    Expr::Exp(
        Box::new(
            Expr::Mul(
                Box::new(Expr::Neg(Box::new(pars.r.clone()))),
                Box::new(pars.tte.clone()),
            ),
        ),
    )
}

fn call_price(d1: Expr, d2: Expr, pars: BlackScholesParams) -> (res: Expr)
    requires
        d1 == spec_bs_d1(pars.spot, pars.strike, pars.tte, pars.r, pars.vol),
        d2 == spec_bs_d2(pars.spot, pars.strike, pars.tte, pars.r, pars.vol),
    ensures
        res == spec_call_price(pars.spot, pars.strike, pars.tte, pars.r, pars.vol),
{
    let df = discount(&pars);
    Expr::Sub(
        Box::new(Expr::Mul(Box::new(pars.spot), Box::new(Expr::NormCdf(Box::new(d1))))),
        Box::new(
            Expr::Mul(
                Box::new(Expr::Mul(Box::new(Expr::Num(pars.strike)), Box::new(df))),
                Box::new(Expr::NormCdf(Box::new(d2))),
            ),
        ),
    )
}

fn put_price(d1: Expr, d2: Expr, pars: BlackScholesParams) -> (res: Expr)
    requires
        d1 == spec_bs_d1(pars.spot, pars.strike, pars.tte, pars.r, pars.vol),
        d2 == spec_bs_d2(pars.spot, pars.strike, pars.tte, pars.r, pars.vol),
    ensures
        res == spec_put_price(pars.spot, pars.strike, pars.tte, pars.r, pars.vol),
{
    let df = discount(&pars);
    Expr::Sub(
        Box::new(
            Expr::Mul(
                Box::new(Expr::Mul(Box::new(Expr::Num(pars.strike)), Box::new(df))),
                Box::new(Expr::NormCdf(Box::new(Expr::Neg(Box::new(d2))))),
            ),
        ),
        Box::new(
            Expr::Mul(
                Box::new(pars.spot),
                Box::new(Expr::NormCdf(Box::new(Expr::Neg(Box::new(d1))))),
            ),
        ),
    )
}

/// Builds the Black–Scholes price expression for the given parameters and
/// option kind.
pub fn black_scholes(pars: BlackScholesParams, option_type: OptionType) -> (res: Expr)
    ensures
        res == spec_black_scholes(pars, option_type),
{
    let d1 = bs_d1(&pars);
    let d2 = bs_d2(&pars);
    match option_type {
        OptionType::Call => call_price(d1, d2, pars),
        OptionType::Put => put_price(d1, d2, pars),
    }
}

} // verus!
