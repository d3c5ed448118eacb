//! The simplifier: a pure, total, bottom-up rewrite pass.
//!
//! Both children of every binary node are simplified first, then a single
//! pass of rewrite rules is applied to the node itself, keyed on its
//! operator and on which of its children are constant leaves.  The first
//! matching rule wins and no further rule is tried, so one pass does not
//! chase patterns that its own rewriting exposes; callers that need a
//! fixed point re-invoke the simplifier, and [`lemma_simplify_idempotent`]
//! shows a second pass never changes anything further.

use vstd::prelude::*;

use crate::expression::Expression;
use crate::scalar::ONE_BITS;
use crate::scalar::Scalar;
use crate::scalar::ZERO_BITS;
use crate::scalar::add_bits;
use crate::scalar::div_bits;
use crate::scalar::float_add;
use crate::scalar::float_div;
use crate::scalar::float_ln;
use crate::scalar::float_mul;
use crate::scalar::float_pow;
use crate::scalar::float_sub;
use crate::scalar::ln_bits;
use crate::scalar::mul_bits;
use crate::scalar::near_one;
use crate::scalar::near_zero;
use crate::scalar::pow_bits;
use crate::scalar::spec_near_one;
use crate::scalar::spec_near_zero;
use crate::scalar::sub_bits;

verus! {

/// The bit pattern of a constant leaf's scalar.
pub open spec fn constant_bits(e: Expression) -> u64
    recommends
        e is Constant,
{
    e->Constant_0.0
}

/// Whether the node is a constant leaf within machine epsilon of zero.
pub open spec fn near_zero_constant(e: Expression) -> bool {
    e is Constant && spec_near_zero(constant_bits(e))
}

/// Whether the node is a constant leaf within machine epsilon of one.
pub open spec fn near_one_constant(e: Expression) -> bool {
    e is Constant && spec_near_one(constant_bits(e))
}

/// The rewrite rules for a sum whose children are already simplified:
/// fold two constants, drop a zero on either side, else leave the node.
pub open spec fn rewrite_add(l: Expression, r: Expression) -> Expression {
    if l is Constant && r is Constant {
        Expression::Constant(Scalar(float_add(constant_bits(l), constant_bits(r))))
    } else if near_zero_constant(l) {
        r
    } else if near_zero_constant(r) {
        l
    } else {
        Expression::Add(Box::new(l), Box::new(r))
    }
}

/// The rewrite rules for a difference: fold two constants, drop a
/// subtracted zero, else leave the node.
pub open spec fn rewrite_subtract(l: Expression, r: Expression) -> Expression {
    if l is Constant && r is Constant {
        Expression::Constant(Scalar(float_sub(constant_bits(l), constant_bits(r))))
    } else if near_zero_constant(r) {
        l
    } else {
        Expression::Subtract(Box::new(l), Box::new(r))
    }
}

/// The rewrite rules for a product: a zero on either side annihilates, a
/// one on either side vanishes, two constants fold, else the node stays.
pub open spec fn rewrite_multiply(l: Expression, r: Expression) -> Expression {
    if near_zero_constant(l) || near_zero_constant(r) {
        Expression::Constant(Scalar(ZERO_BITS))
    } else if near_one_constant(l) {
        r
    } else if near_one_constant(r) {
        l
    } else if l is Constant && r is Constant {
        Expression::Constant(Scalar(float_mul(constant_bits(l), constant_bits(r))))
    } else {
        Expression::Multiply(Box::new(l), Box::new(r))
    }
}

/// The rewrite rules for a quotient: a divisor of one vanishes, two
/// constants fold, else the node stays.
pub open spec fn rewrite_divide(l: Expression, r: Expression) -> Expression {
    if near_one_constant(r) {
        l
    } else if l is Constant && r is Constant {
        Expression::Constant(Scalar(float_div(constant_bits(l), constant_bits(r))))
    } else {
        Expression::Divide(Box::new(l), Box::new(r))
    }
}

/// The rewrite rules for a power, in the order they are tried:
/// `1 ^ x` is one, `x ^ 1` is `x`, `0 ^ x` is zero (with no guard on
/// `x <= 0`, so `0 ^ 0` is zero here), `x ^ 0` is one, and two constants
/// fold through exponentiation.
pub open spec fn rewrite_exponentiate(l: Expression, r: Expression) -> Expression {
    if near_one_constant(l) {
        Expression::Constant(Scalar(ONE_BITS))
    } else if near_one_constant(r) {
        l
    } else if near_zero_constant(l) {
        Expression::Constant(Scalar(ZERO_BITS))
    } else if near_zero_constant(r) {
        Expression::Constant(Scalar(ONE_BITS))
    } else if l is Constant && r is Constant {
        Expression::Constant(Scalar(float_pow(constant_bits(l), constant_bits(r))))
    } else {
        Expression::Exponentiate(Box::new(l), Box::new(r))
    }
}

/// The rewrite rule for a logarithm, base `l` of `r`: two constants fold
/// through `ln(r) / ln(l)`, else the node stays.
pub open spec fn rewrite_logarithm(l: Expression, r: Expression) -> Expression {
    if l is Constant && r is Constant {
        Expression::Constant(
            Scalar(float_div(float_ln(constant_bits(r)), float_ln(constant_bits(l)))),
        )
    } else {
        Expression::Logarithm(Box::new(l), Box::new(r))
    }
}

/// One bottom-up simplification pass over the whole tree: children
/// first, then the rewrite rules at each binary node.  A derivable
/// function keeps its descriptor and simplifies only its argument;
/// leaves stay as they are.
pub open spec fn simplify(e: Expression) -> Expression
    decreases e,
{
    match e {
        Expression::Add(l, r) => rewrite_add(simplify(*l), simplify(*r)),
        Expression::Subtract(l, r) => rewrite_subtract(simplify(*l), simplify(*r)),
        Expression::Multiply(l, r) => rewrite_multiply(simplify(*l), simplify(*r)),
        Expression::Divide(l, r) => rewrite_divide(simplify(*l), simplify(*r)),
        Expression::Exponentiate(l, r) => rewrite_exponentiate(simplify(*l), simplify(*r)),
        Expression::Logarithm(l, r) => rewrite_logarithm(simplify(*l), simplify(*r)),
        Expression::DerivableFunctionExpression(fun, inside) => {
            Expression::DerivableFunctionExpression(fun, Box::new(simplify(*inside)))
        },
        _ => e,
    }
}

fn rules_add(l: Expression, r: Expression) -> (res: Expression)
    ensures
        res == rewrite_add(l, r),
{
    if let (Expression::Constant(a), Expression::Constant(b)) = (&l, &r) {
        return Expression::Constant(Scalar(add_bits(a.0, b.0)));
    }
    if let Expression::Constant(a) = &l {
        if near_zero(a.0) {
            return r;
        }
    }
    if let Expression::Constant(b) = &r {
        if near_zero(b.0) {
            return l;
        }
    }
    Expression::Add(Box::new(l), Box::new(r))
}

fn rules_subtract(l: Expression, r: Expression) -> (res: Expression)
    ensures
        res == rewrite_subtract(l, r),
{
    if let (Expression::Constant(a), Expression::Constant(b)) = (&l, &r) {
        return Expression::Constant(Scalar(sub_bits(a.0, b.0)));
    }
    if let Expression::Constant(b) = &r {
        if near_zero(b.0) {
            return l;
        }
    }
    Expression::Subtract(Box::new(l), Box::new(r))
}

fn rules_multiply(l: Expression, r: Expression) -> (res: Expression)
    ensures
        res == rewrite_multiply(l, r),
{
    if let Expression::Constant(a) = &l {
        if near_zero(a.0) {
            return Expression::Constant(Scalar(ZERO_BITS));
        }
    }
    if let Expression::Constant(b) = &r {
        if near_zero(b.0) {
            return Expression::Constant(Scalar(ZERO_BITS));
        }
    }
    if let Expression::Constant(a) = &l {
        if near_one(a.0) {
            return r;
        }
    }
    if let Expression::Constant(b) = &r {
        if near_one(b.0) {
            return l;
        }
    }
    if let (Expression::Constant(a), Expression::Constant(b)) = (&l, &r) {
        return Expression::Constant(Scalar(mul_bits(a.0, b.0)));
    }
    Expression::Multiply(Box::new(l), Box::new(r))
}

fn rules_divide(l: Expression, r: Expression) -> (res: Expression)
    ensures
        res == rewrite_divide(l, r),
{
    if let Expression::Constant(b) = &r {
        if near_one(b.0) {
            return l;
        }
    }
    if let (Expression::Constant(a), Expression::Constant(b)) = (&l, &r) {
        return Expression::Constant(Scalar(div_bits(a.0, b.0)));
    }
    Expression::Divide(Box::new(l), Box::new(r))
}

fn rules_exponentiate(l: Expression, r: Expression) -> (res: Expression)
    ensures
        res == rewrite_exponentiate(l, r),
{
    if let Expression::Constant(a) = &l {
        if near_one(a.0) {
            return Expression::Constant(Scalar(ONE_BITS));
        }
    }
    if let Expression::Constant(b) = &r {
        if near_one(b.0) {
            return l;
        }
    }
    if let Expression::Constant(a) = &l {
        if near_zero(a.0) {
            return Expression::Constant(Scalar(ZERO_BITS));
        }
    }
    if let Expression::Constant(b) = &r {
        if near_zero(b.0) {
            return Expression::Constant(Scalar(ONE_BITS));
        }
    }
    if let (Expression::Constant(a), Expression::Constant(b)) = (&l, &r) {
        return Expression::Constant(Scalar(pow_bits(a.0, b.0)));
    }
    Expression::Exponentiate(Box::new(l), Box::new(r))
}

fn rules_logarithm(l: Expression, r: Expression) -> (res: Expression)
    ensures
        res == rewrite_logarithm(l, r),
{
    if let (Expression::Constant(a), Expression::Constant(b)) = (&l, &r) {
        return Expression::Constant(Scalar(div_bits(ln_bits(b.0), ln_bits(a.0))));
    }
    Expression::Logarithm(Box::new(l), Box::new(r))
}

impl Expression {
    /// The simplified form of the tree: one bottom-up pass of the rewrite
    /// rules, exactly [`simplify`] of the input.  Total and pure; the
    /// input is left untouched and an equivalent, reduced tree comes
    /// back.
    pub fn simplified(&self) -> (r: Expression)
        ensures
            r == simplify(*self),
        decreases *self,
    {
        match self {
            Expression::Add(l, r) => rules_add(l.simplified(), r.simplified()),
            Expression::Subtract(l, r) => rules_subtract(l.simplified(), r.simplified()),
            Expression::Multiply(l, r) => rules_multiply(l.simplified(), r.simplified()),
            Expression::Divide(l, r) => rules_divide(l.simplified(), r.simplified()),
            Expression::Exponentiate(l, r) => rules_exponentiate(l.simplified(), r.simplified()),
            Expression::Logarithm(l, r) => rules_logarithm(l.simplified(), r.simplified()),
            Expression::DerivableFunctionExpression(fun, inside) => {
                Expression::DerivableFunctionExpression(*fun, Box::new(inside.simplified()))
            },
            Expression::Variable(name) => Expression::Variable(*name),
            Expression::Constant(value) => Expression::Constant(*value),
        }
    }
}

/// Simplification is idempotent: a second pass over an already
/// simplified tree changes nothing, for every expression.  Each rewrite
/// hands back either a constant leaf or one of its already simplified
/// children, so nothing a pass produces is reducible further by the same
/// pass.
pub proof fn lemma_simplify_idempotent(e: Expression)
    ensures
        simplify(simplify(e)) == simplify(e),
    decreases e,
{
    match e {
        Expression::Add(l, r) => {
            lemma_simplify_idempotent(*l);
            lemma_simplify_idempotent(*r);
        },
        Expression::Subtract(l, r) => {
            lemma_simplify_idempotent(*l);
            lemma_simplify_idempotent(*r);
        },
        Expression::Multiply(l, r) => {
            lemma_simplify_idempotent(*l);
            lemma_simplify_idempotent(*r);
        },
        Expression::Divide(l, r) => {
            lemma_simplify_idempotent(*l);
            lemma_simplify_idempotent(*r);
        },
        Expression::Exponentiate(l, r) => {
            lemma_simplify_idempotent(*l);
            lemma_simplify_idempotent(*r);
        },
        Expression::Logarithm(l, r) => {
            lemma_simplify_idempotent(*l);
            lemma_simplify_idempotent(*r);
        },
        Expression::DerivableFunctionExpression(_, inside) => {
            lemma_simplify_idempotent(*inside);
        },
        _ => {},
    }
}

} // verus!
