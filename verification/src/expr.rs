//! Symbolic real-valued expressions.
//!
//! The core never computes with floating-point numbers directly: a measure
//! evaluation returns an [`Expr`] over IEEE-754 double bit patterns, and the
//! caller evaluates it with ordinary float arithmetic, mapping each node to
//! the matching operation.  Conditional nodes compare evaluated operands, so
//! value-dependent decisions (and the one value-dependent failure) are part
//! of the expression itself and the logic that builds them stays verified.
use vstd::prelude::*;

verus! {

/// Bit pattern of the double 1.0.
pub const BITS_ONE: u64 = 0x3FF0000000000000;

/// Bit pattern of the double 0.0.
pub const BITS_ZERO: u64 = 0;

/// Bit pattern of the double 0.5.
pub const BITS_HALF: u64 = 0x3FE0000000000000;

/// Bit pattern of the double 2.0.
pub const BITS_TWO: u64 = 0x4000000000000000;

/// Bit pattern of the double 0.01.
pub const BITS_CENT: u64 = 0x3F847AE147AE147B;

/// Bit pattern of the double -0.01.
pub const BITS_NEG_CENT: u64 = 0xBF847AE147AE147B;

/// Bit pattern of the double machine epsilon (2^-52).
pub const BITS_EPSILON: u64 = 0x3CB0000000000000;

/// A symbolic computation over IEEE-754 doubles.
///
/// `Num` holds the bit pattern of a double literal; `YearFraction(d)` is the
/// number of days `d` divided by 365; the remaining arithmetic nodes mirror
/// the like-named float operations.  `IfEq(a, b, t, e)` evaluates to `t` when
/// `a == b` as doubles and to `e` otherwise; `IfLt` likewise for `<`.
/// Evaluating `ZeroPriceFailure` fails: it reports a zero price inside a
/// relative-shift scenario.
#[derive(Debug)]
pub enum Expr {
    Num(u64),
    YearFraction(i64),
    Add(Box<Expr>, Box<Expr>),
    Sub(Box<Expr>, Box<Expr>),
    Mul(Box<Expr>, Box<Expr>),
    Div(Box<Expr>, Box<Expr>),
    Neg(Box<Expr>),
    Abs(Box<Expr>),
    Ln(Box<Expr>),
    Sqrt(Box<Expr>),
    Exp(Box<Expr>),
    Powi(Box<Expr>, i32),
    Powf(Box<Expr>, Box<Expr>),
    NormCdf(Box<Expr>),
    IfEq(Box<Expr>, Box<Expr>, Box<Expr>, Box<Expr>),
    IfLt(Box<Expr>, Box<Expr>, Box<Expr>, Box<Expr>),
    ZeroPriceFailure,
}

impl Clone for Expr {
    fn clone(&self) -> (r: Expr)
        ensures
            r == *self,
        decreases *self,
    {
        match self {
            Expr::Num(b) => Expr::Num(*b),
            Expr::YearFraction(d) => Expr::YearFraction(*d),
            Expr::Add(a, b) => Expr::Add(Box::new((**a).clone()), Box::new((**b).clone())),
            Expr::Sub(a, b) => Expr::Sub(Box::new((**a).clone()), Box::new((**b).clone())),
            Expr::Mul(a, b) => Expr::Mul(Box::new((**a).clone()), Box::new((**b).clone())),
            Expr::Div(a, b) => Expr::Div(Box::new((**a).clone()), Box::new((**b).clone())),
            Expr::Neg(a) => Expr::Neg(Box::new((**a).clone())),
            Expr::Abs(a) => Expr::Abs(Box::new((**a).clone())),
            Expr::Ln(a) => Expr::Ln(Box::new((**a).clone())),
            Expr::Sqrt(a) => Expr::Sqrt(Box::new((**a).clone())),
            Expr::Exp(a) => Expr::Exp(Box::new((**a).clone())),
            Expr::Powi(a, n) => Expr::Powi(Box::new((**a).clone()), *n),
            Expr::Powf(a, b) => Expr::Powf(Box::new((**a).clone()), Box::new((**b).clone())),
            Expr::NormCdf(a) => Expr::NormCdf(Box::new((**a).clone())),
            Expr::IfEq(a, b, t, e) => Expr::IfEq(
                Box::new((**a).clone()),
                Box::new((**b).clone()),
                Box::new((**t).clone()),
                Box::new((**e).clone()),
            ),
            Expr::IfLt(a, b, t, e) => Expr::IfLt(
                Box::new((**a).clone()),
                Box::new((**b).clone()),
                Box::new((**t).clone()),
                Box::new((**e).clone()),
            ),
            Expr::ZeroPriceFailure => Expr::ZeroPriceFailure,
        }
    }
}

/// The shift update `(1 + rel) * v + abs` over bit-pattern literals.
pub open spec fn spec_shifted(v: Expr, rel: u64, abs: u64) -> Expr {
    Expr::Add(
        Box::new(
            Expr::Mul(
                Box::new(Expr::Add(Box::new(Expr::Num(BITS_ONE)), Box::new(Expr::Num(rel)))),
                Box::new(v),
            ),
        ),
        Box::new(Expr::Num(abs)),
    )
}

/// Applies the shift update `(1 + rel) * v + abs` symbolically.
pub fn shifted(v: Expr, rel: u64, abs: u64) -> (r: Expr)
    ensures
        r == spec_shifted(v, rel, abs),
{
    Expr::Add(
        Box::new(
            Expr::Mul(
                Box::new(Expr::Add(Box::new(Expr::Num(BITS_ONE)), Box::new(Expr::Num(rel)))),
                Box::new(v),
            ),
        ),
        Box::new(Expr::Num(abs)),
    )
}

} // verus!
