//! The expression tree: a closed recursive sum type for algebraic
//! formulas.  Every binary node exclusively owns its two children; all
//! transformations return new trees.
//!
//! Structural equality is commutative on `Add` and `Multiply` and
//! order-sensitive everywhere else; constants compare by IEEE equality of
//! their scalars.

use vstd::prelude::*;

use crate::scalar::NEG_ONE_BITS;
use crate::scalar::Scalar;
use crate::scalar::float_eq;

verus! {

/// A transcendental function embedded in the tree, carrying its own
/// derivative rule.  The descriptor is a closed set of known functions;
/// each knows its display name and the derivative of the function with
/// respect to its argument, as an expression in that argument.
#[derive(Clone, Copy, Debug, PartialEq, Eq, Structural)]
pub enum DerivableFunction {
    Sine,
    Cosine,
}

/// An algebraic formula as an owned tree.
///
/// `Logarithm(base, argument)` is log base `base` of `argument`;
/// `Exponentiate(base, power)` is `base` to the `power`.  A
/// `DerivableFunctionExpression` applies a [`DerivableFunction`] to its
/// argument subtree.
#[derive(Debug)]
pub enum Expression {
    Add(Box<Expression>, Box<Expression>),
    Subtract(Box<Expression>, Box<Expression>),
    Multiply(Box<Expression>, Box<Expression>),
    Divide(Box<Expression>, Box<Expression>),
    Exponentiate(Box<Expression>, Box<Expression>),
    Logarithm(Box<Expression>, Box<Expression>),
    Variable(char),
    Constant(Scalar),
    DerivableFunctionExpression(DerivableFunction, Box<Expression>),
}

/// The sine of an argument expression, as a tree node.
pub open spec fn sine_of(argument: Expression) -> Expression {
    Expression::DerivableFunctionExpression(DerivableFunction::Sine, Box::new(argument))
}

/// The cosine of an argument expression, as a tree node.
pub open spec fn cosine_of(argument: Expression) -> Expression {
    Expression::DerivableFunctionExpression(DerivableFunction::Cosine, Box::new(argument))
}

impl DerivableFunction {
    /// The display name of the function.
    pub open spec fn spec_name(self) -> Seq<char> {
        match self {
            DerivableFunction::Sine => "sin"@,
            DerivableFunction::Cosine => "cos"@,
        }
    }

    pub fn name(&self) -> (r: &'static str)
        ensures
            r@ == self.spec_name(),
    {
        match self {
            DerivableFunction::Sine => "sin",
            DerivableFunction::Cosine => "cos",
        }
    }

    /// The derivative of the function with respect to its argument, as an
    /// expression in the (undifferentiated) argument: the derivative rule
    /// the descriptor carries.
    pub open spec fn spec_rule(self, argument: Expression) -> Expression {
        match self {
            DerivableFunction::Sine => cosine_of(argument),
            DerivableFunction::Cosine => Expression::Multiply(
                Box::new(Expression::Constant(Scalar(NEG_ONE_BITS))),
                Box::new(sine_of(argument)),
            ),
        }
    }

    pub fn rule(&self, argument: Expression) -> (r: Expression)
        ensures
            r == self.spec_rule(argument),
    {
        match self {
            DerivableFunction::Sine => Expression::DerivableFunctionExpression(
                DerivableFunction::Cosine,
                Box::new(argument),
            ),
            DerivableFunction::Cosine => Expression::Multiply(
                Box::new(Expression::Constant(Scalar(NEG_ONE_BITS))),
                Box::new(
                    Expression::DerivableFunctionExpression(
                        DerivableFunction::Sine,
                        Box::new(argument),
                    ),
                ),
            ),
        }
    }
}

/// The sine of the given argument, which is copied into the new tree.
pub fn sin(inside: &Expression) -> (r: Expression)
    ensures
        r == sine_of(*inside),
{
    Expression::DerivableFunctionExpression(DerivableFunction::Sine, Box::new(inside.duplicated()))
}

/// The cosine of the given argument, which is copied into the new tree.
pub fn cos(inside: &Expression) -> (r: Expression)
    ensures
        r == cosine_of(*inside),
{
    Expression::DerivableFunctionExpression(
        DerivableFunction::Cosine,
        Box::new(inside.duplicated()),
    )
}

/// Structural equality of two trees: commutative across `Add` and
/// `Multiply`, order-sensitive on the other binary nodes, IEEE scalar
/// equality on constants, and name equality on function descriptors.
pub open spec fn expr_eq(a: Expression, b: Expression) -> bool
    decreases a,
{
    match (a, b) {
        (Expression::Add(l0, l1), Expression::Add(r0, r1)) => {
            (expr_eq(*l0, *r0) && expr_eq(*l1, *r1)) || (expr_eq(*l0, *r1) && expr_eq(*l1, *r0))
        },
        (Expression::Subtract(l0, l1), Expression::Subtract(r0, r1)) => {
            expr_eq(*l0, *r0) && expr_eq(*l1, *r1)
        },
        (Expression::Multiply(l0, l1), Expression::Multiply(r0, r1)) => {
            (expr_eq(*l0, *r0) && expr_eq(*l1, *r1)) || (expr_eq(*l0, *r1) && expr_eq(*l1, *r0))
        },
        (Expression::Divide(l0, l1), Expression::Divide(r0, r1)) => {
            expr_eq(*l0, *r0) && expr_eq(*l1, *r1)
        },
        (Expression::Exponentiate(l0, l1), Expression::Exponentiate(r0, r1)) => {
            expr_eq(*l0, *r0) && expr_eq(*l1, *r1)
        },
        (Expression::Logarithm(l0, l1), Expression::Logarithm(r0, r1)) => {
            expr_eq(*l0, *r0) && expr_eq(*l1, *r1)
        },
        (Expression::Variable(l0), Expression::Variable(r0)) => l0 == r0,
        (Expression::Constant(l0), Expression::Constant(r0)) => float_eq(l0.0, r0.0),
        (
            Expression::DerivableFunctionExpression(fun1, inside1),
            Expression::DerivableFunctionExpression(fun2, inside2),
        ) => fun1 == fun2 && expr_eq(*inside1, *inside2),
        _ => false,
    }
}

/// Decides [`expr_eq`] on two borrowed trees.
pub fn expressions_equal(a: &Expression, b: &Expression) -> (r: bool)
    ensures
        r == expr_eq(*a, *b),
    decreases *a,
{
    match (a, b) {
        (Expression::Add(l0, l1), Expression::Add(r0, r1)) => {
            (expressions_equal(&**l0, &**r0) && expressions_equal(&**l1, &**r1))
                || (expressions_equal(&**l0, &**r1) && expressions_equal(&**l1, &**r0))
        },
        (Expression::Subtract(l0, l1), Expression::Subtract(r0, r1)) => {
            expressions_equal(&**l0, &**r0) && expressions_equal(&**l1, &**r1)
        },
        (Expression::Multiply(l0, l1), Expression::Multiply(r0, r1)) => {
            (expressions_equal(&**l0, &**r0) && expressions_equal(&**l1, &**r1))
                || (expressions_equal(&**l0, &**r1) && expressions_equal(&**l1, &**r0))
        },
        (Expression::Divide(l0, l1), Expression::Divide(r0, r1)) => {
            expressions_equal(&**l0, &**r0) && expressions_equal(&**l1, &**r1)
        },
        (Expression::Exponentiate(l0, l1), Expression::Exponentiate(r0, r1)) => {
            expressions_equal(&**l0, &**r0) && expressions_equal(&**l1, &**r1)
        },
        (Expression::Logarithm(l0, l1), Expression::Logarithm(r0, r1)) => {
            expressions_equal(&**l0, &**r0) && expressions_equal(&**l1, &**r1)
        },
        (Expression::Variable(l0), Expression::Variable(r0)) => l0 == r0,
        (Expression::Constant(l0), Expression::Constant(r0)) => crate::scalar::eq_bits(
            l0.0,
            r0.0,
        ),
        (
            Expression::DerivableFunctionExpression(fun1, inside1),
            Expression::DerivableFunctionExpression(fun2, inside2),
        ) => *fun1 == *fun2 && expressions_equal(&**inside1, &**inside2),
        _ => false,
    }
}

impl PartialEq for Expression {
    fn eq(&self, other: &Self) -> (r: bool) {
        expressions_equal(self, other)
    }
}

impl vstd::std_specs::cmp::PartialEqSpecImpl for Expression {
    open spec fn obeys_eq_spec() -> bool {
        true
    }

    open spec fn eq_spec(&self, other: &Expression) -> bool {
        expr_eq(*self, *other)
    }
}

impl Expression {
    /// A structurally identical copy of the tree.
    pub fn duplicated(&self) -> (r: Expression)
        ensures
            r == *self,
        decreases *self,
    {
        match self {
            Expression::Add(l, r) => Expression::Add(
                Box::new(l.duplicated()),
                Box::new(r.duplicated()),
            ),
            Expression::Subtract(l, r) => Expression::Subtract(
                Box::new(l.duplicated()),
                Box::new(r.duplicated()),
            ),
            Expression::Multiply(l, r) => Expression::Multiply(
                Box::new(l.duplicated()),
                Box::new(r.duplicated()),
            ),
            Expression::Divide(l, r) => Expression::Divide(
                Box::new(l.duplicated()),
                Box::new(r.duplicated()),
            ),
            Expression::Exponentiate(l, r) => Expression::Exponentiate(
                Box::new(l.duplicated()),
                Box::new(r.duplicated()),
            ),
            Expression::Logarithm(l, r) => Expression::Logarithm(
                Box::new(l.duplicated()),
                Box::new(r.duplicated()),
            ),
            Expression::Variable(name) => Expression::Variable(*name),
            Expression::Constant(value) => Expression::Constant(*value),
            Expression::DerivableFunctionExpression(fun, inside) => {
                Expression::DerivableFunctionExpression(*fun, Box::new(inside.duplicated()))
            },
        }
    }
}

impl Clone for Expression {
    /// A clone is structurally identical to the original.
    fn clone(&self) -> (r: Self)
        ensures
            r == *self,
    {
        self.duplicated()
    }
}

impl std::ops::Add<Expression> for Expression {
    type Output = Expression;

    fn add(self, rhs: Expression) -> (r: Expression)
        ensures
            r == Expression::Add(Box::new(self), Box::new(rhs)),
    {
        Expression::Add(Box::new(self), Box::new(rhs))
    }
}

impl vstd::std_specs::ops::AddSpecImpl<Expression> for Expression {
    open spec fn obeys_add_spec() -> bool {
        true
    }

    open spec fn add_req(self, rhs: Expression) -> bool {
        true
    }

    open spec fn add_spec(self, rhs: Expression) -> Expression {
        Expression::Add(Box::new(self), Box::new(rhs))
    }
}

impl std::ops::Sub<Expression> for Expression {
    type Output = Expression;

    fn sub(self, rhs: Expression) -> (r: Expression)
        ensures
            r == Expression::Subtract(Box::new(self), Box::new(rhs)),
    {
        Expression::Subtract(Box::new(self), Box::new(rhs))
    }
}

impl vstd::std_specs::ops::SubSpecImpl<Expression> for Expression {
    open spec fn obeys_sub_spec() -> bool {
        true
    }

    open spec fn sub_req(self, rhs: Expression) -> bool {
        true
    }

    open spec fn sub_spec(self, rhs: Expression) -> Expression {
        Expression::Subtract(Box::new(self), Box::new(rhs))
    }
}

impl std::ops::Mul<Expression> for Expression {
    type Output = Expression;

    fn mul(self, rhs: Expression) -> (r: Expression)
        ensures
            r == Expression::Multiply(Box::new(self), Box::new(rhs)),
    {
        Expression::Multiply(Box::new(self), Box::new(rhs))
    }
}

impl vstd::std_specs::ops::MulSpecImpl<Expression> for Expression {
    open spec fn obeys_mul_spec() -> bool {
        true
    }

    open spec fn mul_req(self, rhs: Expression) -> bool {
        true
    }

    open spec fn mul_spec(self, rhs: Expression) -> Expression {
        Expression::Multiply(Box::new(self), Box::new(rhs))
    }
}

impl std::ops::Div<Expression> for Expression {
    type Output = Expression;

    fn div(self, rhs: Expression) -> (r: Expression)
        ensures
            r == Expression::Divide(Box::new(self), Box::new(rhs)),
    {
        Expression::Divide(Box::new(self), Box::new(rhs))
    }
}

impl vstd::std_specs::ops::DivSpecImpl<Expression> for Expression {
    open spec fn obeys_div_spec() -> bool {
        true
    }

    open spec fn div_req(self, rhs: Expression) -> bool {
        true
    }

    open spec fn div_spec(self, rhs: Expression) -> Expression {
        Expression::Divide(Box::new(self), Box::new(rhs))
    }
}

impl std::ops::BitXor<Expression> for Expression {
    type Output = Expression;

    /// `a ^ b` builds the exponentiation node `a` to the power `b`.
    fn bitxor(self, rhs: Expression) -> (r: Expression)
        ensures
            r == Expression::Exponentiate(Box::new(self), Box::new(rhs)),
    {
        Expression::Exponentiate(Box::new(self), Box::new(rhs))
    }
}

impl vstd::std_specs::ops::BitXorSpecImpl<Expression> for Expression {
    open spec fn obeys_bitxor_spec() -> bool {
        true
    }

    open spec fn bitxor_req(self, rhs: Expression) -> bool {
        true
    }

    open spec fn bitxor_spec(self, rhs: Expression) -> Expression {
        Expression::Exponentiate(Box::new(self), Box::new(rhs))
    }
}

/// Whether every constant in the tree equals itself under IEEE equality;
/// only a NaN constant does not.
pub open spec fn constants_self_equal(e: Expression) -> bool
    decreases e,
{
    match e {
        Expression::Add(l, r) => constants_self_equal(*l) && constants_self_equal(*r),
        Expression::Subtract(l, r) => constants_self_equal(*l) && constants_self_equal(*r),
        Expression::Multiply(l, r) => constants_self_equal(*l) && constants_self_equal(*r),
        Expression::Divide(l, r) => constants_self_equal(*l) && constants_self_equal(*r),
        Expression::Exponentiate(l, r) => constants_self_equal(*l) && constants_self_equal(*r),
        Expression::Logarithm(l, r) => constants_self_equal(*l) && constants_self_equal(*r),
        Expression::Variable(_) => true,
        Expression::Constant(value) => float_eq(value.0, value.0),
        Expression::DerivableFunctionExpression(_, inside) => constants_self_equal(*inside),
    }
}

/// Structural equality is reflexive on every tree whose constants each
/// equal themselves; a tree holding a NaN constant is the one exception,
/// since a NaN is not IEEE-equal to itself.
pub proof fn lemma_eq_reflexive(e: Expression)
    requires
        constants_self_equal(e),
    ensures
        expr_eq(e, e),
    decreases e,
{
    match e {
        Expression::Add(l, r) => {
            lemma_eq_reflexive(*l);
            lemma_eq_reflexive(*r);
        },
        Expression::Subtract(l, r) => {
            lemma_eq_reflexive(*l);
            lemma_eq_reflexive(*r);
        },
        Expression::Multiply(l, r) => {
            lemma_eq_reflexive(*l);
            lemma_eq_reflexive(*r);
        },
        Expression::Divide(l, r) => {
            lemma_eq_reflexive(*l);
            lemma_eq_reflexive(*r);
        },
        Expression::Exponentiate(l, r) => {
            lemma_eq_reflexive(*l);
            lemma_eq_reflexive(*r);
        },
        Expression::Logarithm(l, r) => {
            lemma_eq_reflexive(*l);
            lemma_eq_reflexive(*r);
        },
        Expression::Variable(_) => {},
        Expression::Constant(_) => {},
        Expression::DerivableFunctionExpression(_, inside) => {
            lemma_eq_reflexive(*inside);
        },
    }
}

/// Structural equality is commutative across `Add` and `Multiply`:
/// `l + r` equals `r + l` and `l * r` equals `r * l`, for all operands
/// whose constants each equal themselves (a NaN constant breaks even
/// reflexivity, so such operands are left out).
pub proof fn lemma_eq_commutative(l: Expression, r: Expression)
    requires
        constants_self_equal(l),
        constants_self_equal(r),
    ensures
        expr_eq(
            Expression::Add(Box::new(l), Box::new(r)),
            Expression::Add(Box::new(r), Box::new(l)),
        ),
        expr_eq(
            Expression::Multiply(Box::new(l), Box::new(r)),
            Expression::Multiply(Box::new(r), Box::new(l)),
        ),
{
    lemma_eq_reflexive(l);
    lemma_eq_reflexive(r);
}

} // verus!
