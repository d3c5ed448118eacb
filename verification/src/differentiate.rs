//! Structural differentiation.
//!
//! `differentiate` maps a tree and a variable to the derivative tree,
//! simplifying every produced sub-result.  The variable of
//! differentiation must itself be a `Variable` node; anything else is
//! rejected with [`BadDifferentiationError`], never a panic and never a
//! silent zero.
//!
//! Two rules reproduce long-standing quirks of this engine on purpose
//! rather than the textbook formulas: a quotient is differentiated with
//! the product-rule formula, and a logarithm's derivative is taken with
//! respect to its base.  The power rule covers constant exponents only.

use vstd::prelude::*;

use crate::expression::Expression;
use crate::scalar::ONE_BITS;
use crate::scalar::Scalar;
use crate::scalar::ZERO_BITS;
use crate::simplify::simplify;

verus! {

/// The error for differentiation with respect to an expression that is
/// not a `Variable` node: such a derivative is undefined.
#[derive(Debug, PartialEq, Eq, Structural)]
pub struct BadDifferentiationError;

/// The derivative of `e` with respect to the variable named `wrt`, with
/// every structural step passed through [`simplify`]:
///
/// - sums and differences differentiate child by child;
/// - a product obeys the product rule `l' * r + r' * l`;
/// - a quotient reuses the product-rule formula (a preserved quirk, not
///   the quotient rule);
/// - a power differentiates as `power * base ^ (power - 1) * base'`, the
///   constant-exponent power rule;
/// - a logarithm differentiates as `(1 / argument) * base'`, with respect
///   to its base (a preserved quirk);
/// - the variable itself becomes one, any other leaf zero;
/// - a derivable function obeys the chain rule: its descriptor's rule
///   applied to the undifferentiated argument, times the argument's
///   derivative.
pub open spec fn derivative(e: Expression, wrt: char) -> Expression
    decreases e,
{
    match e {
        Expression::Add(l, r) => simplify(
            Expression::Add(Box::new(derivative(*l, wrt)), Box::new(derivative(*r, wrt))),
        ),
        Expression::Subtract(l, r) => simplify(
            Expression::Subtract(Box::new(derivative(*l, wrt)), Box::new(derivative(*r, wrt))),
        ),
        Expression::Multiply(l, r) => simplify(
            Expression::Add(
                Box::new(Expression::Multiply(Box::new(derivative(*l, wrt)), r)),
                Box::new(Expression::Multiply(Box::new(derivative(*r, wrt)), l)),
            ),
        ),
        Expression::Divide(l, r) => simplify(
            Expression::Add(
                Box::new(Expression::Multiply(Box::new(derivative(*l, wrt)), r)),
                Box::new(Expression::Multiply(Box::new(derivative(*r, wrt)), l)),
            ),
        ),
        Expression::Exponentiate(base, power) => simplify(
            Expression::Multiply(
                Box::new(
                    Expression::Multiply(
                        power,
                        Box::new(
                            Expression::Exponentiate(
                                base,
                                Box::new(
                                    Expression::Subtract(
                                        power,
                                        Box::new(Expression::Constant(Scalar(ONE_BITS))),
                                    ),
                                ),
                            ),
                        ),
                    ),
                ),
                Box::new(derivative(*base, wrt)),
            ),
        ),
        Expression::Logarithm(base, inside) => simplify(
            Expression::Multiply(
                Box::new(
                    Expression::Divide(Box::new(Expression::Constant(Scalar(ONE_BITS))), inside),
                ),
                Box::new(derivative(*base, wrt)),
            ),
        ),
        Expression::Variable(name) => {
            if name == wrt {
                Expression::Constant(Scalar(ONE_BITS))
            } else {
                Expression::Constant(Scalar(ZERO_BITS))
            }
        },
        Expression::Constant(_) => Expression::Constant(Scalar(ZERO_BITS)),
        Expression::DerivableFunctionExpression(fun, inside) => simplify(
            Expression::Multiply(
                Box::new(fun.spec_rule(*inside)),
                Box::new(derivative(*inside, wrt)),
            ),
        ),
    }
}

impl Expression {
    fn derivative_of(&self, wrt: char) -> (r: Expression)
        ensures
            r == derivative(*self, wrt),
        decreases *self,
    {
        match self {
            Expression::Add(l, r) => {
                let node = Expression::Add(
                    Box::new(l.derivative_of(wrt)),
                    Box::new(r.derivative_of(wrt)),
                );
                node.simplified()
            },
            Expression::Subtract(l, r) => {
                let node = Expression::Subtract(
                    Box::new(l.derivative_of(wrt)),
                    Box::new(r.derivative_of(wrt)),
                );
                node.simplified()
            },
            Expression::Multiply(l, r) => {
                let node = Expression::Add(
                    Box::new(
                        Expression::Multiply(
                            Box::new(l.derivative_of(wrt)),
                            Box::new(r.duplicated()),
                        ),
                    ),
                    Box::new(
                        Expression::Multiply(
                            Box::new(r.derivative_of(wrt)),
                            Box::new(l.duplicated()),
                        ),
                    ),
                );
                node.simplified()
            },
            Expression::Divide(l, r) => {
                let node = Expression::Add(
                    Box::new(
                        Expression::Multiply(
                            Box::new(l.derivative_of(wrt)),
                            Box::new(r.duplicated()),
                        ),
                    ),
                    Box::new(
                        Expression::Multiply(
                            Box::new(r.derivative_of(wrt)),
                            Box::new(l.duplicated()),
                        ),
                    ),
                );
                node.simplified()
            },
            Expression::Exponentiate(base, power) => {
                let node = Expression::Multiply(
                    Box::new(
                        Expression::Multiply(
                            Box::new(power.duplicated()),
                            Box::new(
                                Expression::Exponentiate(
                                    Box::new(base.duplicated()),
                                    Box::new(
                                        Expression::Subtract(
                                            Box::new(power.duplicated()),
                                            Box::new(Expression::Constant(Scalar(ONE_BITS))),
                                        ),
                                    ),
                                ),
                            ),
                        ),
                    ),
                    Box::new(base.derivative_of(wrt)),
                );
                node.simplified()
            },
            Expression::Logarithm(base, inside) => {
                let node = Expression::Multiply(
                    Box::new(
                        Expression::Divide(
                            Box::new(Expression::Constant(Scalar(ONE_BITS))),
                            Box::new(inside.duplicated()),
                        ),
                    ),
                    Box::new(base.derivative_of(wrt)),
                );
                node.simplified()
            },
            Expression::Variable(name) => {
                if *name == wrt {
                    Expression::Constant(Scalar(ONE_BITS))
                } else {
                    Expression::Constant(Scalar(ZERO_BITS))
                }
            },
            Expression::Constant(_) => Expression::Constant(Scalar(ZERO_BITS)),
            Expression::DerivableFunctionExpression(fun, inside) => {
                let node = Expression::Multiply(
                    Box::new(fun.rule(inside.duplicated())),
                    Box::new(inside.derivative_of(wrt)),
                );
                node.simplified()
            },
        }
    }

    /// The derivative of the tree with respect to `wrt`.
    ///
    /// Succeeds exactly when `wrt` is a `Variable` node, and then returns
    /// [`derivative`] of the tree with respect to that variable's name;
    /// any other `wrt` yields `BadDifferentiationError`.
    pub fn differentiate(&self, wrt: &Expression) -> (r: Result<
        Expression,
        BadDifferentiationError,
    >)
        ensures
            (*wrt matches Expression::Variable(name) ==> r matches Ok(d) && d == derivative(
                *self,
                name,
            )),
            !(*wrt is Variable) ==> r is Err,
    {
        if let Expression::Variable(name) = wrt {
            Ok(self.derivative_of(*name))
        } else {
            Err(BadDifferentiationError)
        }
    }
}

} // verus!

