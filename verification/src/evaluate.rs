//! Variable substitution and evaluation.
//!
//! `with` rebuilds a tree under a set of bindings, replacing every bound
//! variable by its constant and simplifying each rebuilt node, exactly
//! as the simplifier would.  When every variable is bound and every
//! function application folds away, the result collapses to a single
//! constant; `evaluated` extracts that constant and reports
//! [`UnresolvedEvaluation`] in every other case rather than handing back
//! a non-constant tree.

use vstd::prelude::*;

use crate::expression::Expression;
use crate::scalar::Scalar;
use crate::simplify::simplify;

verus! {

/// The error for an evaluation that did not collapse to a constant: a
/// free variable remained, or a derivable function application could not
/// fold to a number.
#[derive(Debug, PartialEq, Eq, Structural)]
pub struct UnresolvedEvaluation;

/// The map a sequence of name/value pairs denotes; a later pair for the
/// same name overrides an earlier one.
pub open spec fn map_of(pairs: Seq<(char, Scalar)>) -> Map<char, Scalar>
    decreases pairs.len(),
{
    if pairs.len() == 0 {
        Map::empty()
    } else {
        map_of(pairs.drop_last()).insert(pairs.last().0, pairs.last().1)
    }
}

/// An assignment of scalar values to variable names, used to partially
/// or fully evaluate a tree.  Viewed as the map from bound names to
/// their values.
#[derive(Debug)]
pub struct Bindings {
    pairs: Vec<(char, Scalar)>,
}

impl View for Bindings {
    type V = Map<char, Scalar>;

    closed spec fn view(&self) -> Map<char, Scalar> {
        map_of(self.pairs@)
    }
}

impl Bindings {
    /// An empty set of bindings.
    pub fn new() -> (r: Bindings)
        ensures
            r@ == Map::<char, Scalar>::empty(),
    {
        Bindings { pairs: Vec::new() }
    }

    /// Binds `name` to `value`, overriding any earlier binding of the
    /// same name.
    pub fn insert(&mut self, name: char, value: Scalar)
        ensures
            final(self)@ == old(self)@.insert(name, value),
    {
        self.pairs.push((name, value));
        proof {
            assert(self.pairs@.drop_last() =~= old(self).pairs@);
        }
    }

    fn lookup(pairs: &Vec<(char, Scalar)>, n: usize, name: char) -> (r: Option<Scalar>)
        requires
            n <= pairs.len(),
        ensures
            r == map_of(pairs@.take(n as int)).get(name),
        decreases n,
    {
        if n == 0 {
            None
        } else {
            let (bound, value) = pairs[n - 1];
            proof {
                assert(pairs@.take(n as int).drop_last() =~= pairs@.take(n as int - 1));
            }
            if bound == name {
                Some(value)
            } else {
                Self::lookup(pairs, n - 1, name)
            }
        }
    }

    /// The value bound to `name`, if any.
    pub fn get(&self, name: char) -> (r: Option<Scalar>)
        ensures
            r == self@.get(name),
    {
        proof {
            assert(self.pairs@.take(self.pairs@.len() as int) =~= self.pairs@);
        }
        Self::lookup(&self.pairs, self.pairs.len(), name)
    }
}

/// The tree rebuilt under `bindings`: every variable with a binding
/// becomes its constant, unbound variables stay, and every rebuilt node
/// is simplified on the way up, exactly as `with` computes it.
pub open spec fn substituted(e: Expression, bindings: Map<char, Scalar>) -> Expression
    decreases e,
{
    match e {
        Expression::Add(l, r) => simplify(
            Expression::Add(
                Box::new(substituted(*l, bindings)),
                Box::new(substituted(*r, bindings)),
            ),
        ),
        Expression::Subtract(l, r) => simplify(
            Expression::Subtract(
                Box::new(substituted(*l, bindings)),
                Box::new(substituted(*r, bindings)),
            ),
        ),
        Expression::Multiply(l, r) => simplify(
            Expression::Multiply(
                Box::new(substituted(*l, bindings)),
                Box::new(substituted(*r, bindings)),
            ),
        ),
        Expression::Divide(l, r) => simplify(
            Expression::Divide(
                Box::new(substituted(*l, bindings)),
                Box::new(substituted(*r, bindings)),
            ),
        ),
        Expression::Exponentiate(l, r) => simplify(
            Expression::Exponentiate(
                Box::new(substituted(*l, bindings)),
                Box::new(substituted(*r, bindings)),
            ),
        ),
        Expression::Logarithm(l, r) => simplify(
            Expression::Logarithm(
                Box::new(substituted(*l, bindings)),
                Box::new(substituted(*r, bindings)),
            ),
        ),
        Expression::Variable(name) => {
            if bindings.contains_key(name) {
                Expression::Constant(bindings[name])
            } else {
                Expression::Variable(name)
            }
        },
        Expression::Constant(value) => Expression::Constant(value),
        Expression::DerivableFunctionExpression(fun, inside) => simplify(
            Expression::DerivableFunctionExpression(fun, Box::new(substituted(*inside, bindings))),
        ),
    }
}

/// The set of variable names occurring in the tree.
pub open spec fn free_variables(e: Expression) -> Set<char>
    decreases e,
{
    match e {
        Expression::Add(l, r) => free_variables(*l) + free_variables(*r),
        Expression::Subtract(l, r) => free_variables(*l) + free_variables(*r),
        Expression::Multiply(l, r) => free_variables(*l) + free_variables(*r),
        Expression::Divide(l, r) => free_variables(*l) + free_variables(*r),
        Expression::Exponentiate(l, r) => free_variables(*l) + free_variables(*r),
        Expression::Logarithm(l, r) => free_variables(*l) + free_variables(*r),
        Expression::Variable(name) => set![name],
        Expression::Constant(_) => Set::empty(),
        Expression::DerivableFunctionExpression(_, inside) => free_variables(*inside),
    }
}

/// Whether the tree holds no derivable-function node.  No numeric rule
/// evaluates such a node, so only a function-free tree is guaranteed to
/// fold to a number.
pub open spec fn function_free(e: Expression) -> bool
    decreases e,
{
    match e {
        Expression::Add(l, r) => function_free(*l) && function_free(*r),
        Expression::Subtract(l, r) => function_free(*l) && function_free(*r),
        Expression::Multiply(l, r) => function_free(*l) && function_free(*r),
        Expression::Divide(l, r) => function_free(*l) && function_free(*r),
        Expression::Exponentiate(l, r) => function_free(*l) && function_free(*r),
        Expression::Logarithm(l, r) => function_free(*l) && function_free(*r),
        Expression::Variable(_) => true,
        Expression::Constant(_) => true,
        Expression::DerivableFunctionExpression(_, _) => false,
    }
}

/// Substitution under a full binding collapses to a single constant:
/// whenever every free variable of a function-free tree is bound, the
/// rebuilt and simplified tree is one `Constant` leaf, since every
/// rewrite of a node with two constant children yields a constant again.
pub proof fn lemma_full_binding_collapses(e: Expression, bindings: Map<char, Scalar>)
    requires
        function_free(e),
        free_variables(e) <= bindings.dom(),
    ensures
        substituted(e, bindings) is Constant,
    decreases e,
{
    match e {
        Expression::Add(l, r) => {
            assert(free_variables(*l) <= bindings.dom());
            assert(free_variables(*r) <= bindings.dom());
            lemma_full_binding_collapses(*l, bindings);
            lemma_full_binding_collapses(*r, bindings);
            let sl = substituted(*l, bindings);
            let sr = substituted(*r, bindings);
            assert(simplify(sl) == sl);
            assert(simplify(sr) == sr);
        },
        Expression::Subtract(l, r) => {
            assert(free_variables(*l) <= bindings.dom());
            assert(free_variables(*r) <= bindings.dom());
            lemma_full_binding_collapses(*l, bindings);
            lemma_full_binding_collapses(*r, bindings);
            let sl = substituted(*l, bindings);
            let sr = substituted(*r, bindings);
            assert(simplify(sl) == sl);
            assert(simplify(sr) == sr);
        },
        Expression::Multiply(l, r) => {
            assert(free_variables(*l) <= bindings.dom());
            assert(free_variables(*r) <= bindings.dom());
            lemma_full_binding_collapses(*l, bindings);
            lemma_full_binding_collapses(*r, bindings);
            let sl = substituted(*l, bindings);
            let sr = substituted(*r, bindings);
            assert(simplify(sl) == sl);
            assert(simplify(sr) == sr);
        },
        Expression::Divide(l, r) => {
            assert(free_variables(*l) <= bindings.dom());
            assert(free_variables(*r) <= bindings.dom());
            lemma_full_binding_collapses(*l, bindings);
            lemma_full_binding_collapses(*r, bindings);
            let sl = substituted(*l, bindings);
            let sr = substituted(*r, bindings);
            assert(simplify(sl) == sl);
            assert(simplify(sr) == sr);
        },
        Expression::Exponentiate(l, r) => {
            assert(free_variables(*l) <= bindings.dom());
            assert(free_variables(*r) <= bindings.dom());
            lemma_full_binding_collapses(*l, bindings);
            lemma_full_binding_collapses(*r, bindings);
            let sl = substituted(*l, bindings);
            let sr = substituted(*r, bindings);
            assert(simplify(sl) == sl);
            assert(simplify(sr) == sr);
        },
        Expression::Logarithm(l, r) => {
            assert(free_variables(*l) <= bindings.dom());
            assert(free_variables(*r) <= bindings.dom());
            lemma_full_binding_collapses(*l, bindings);
            lemma_full_binding_collapses(*r, bindings);
            let sl = substituted(*l, bindings);
            let sr = substituted(*r, bindings);
            assert(simplify(sl) == sl);
            assert(simplify(sr) == sr);
        },
        Expression::Variable(name) => {
            assert(free_variables(e).contains(name));
            assert(bindings.dom().contains(name));
        },
        Expression::Constant(_) => {},
        Expression::DerivableFunctionExpression(_, _) => {},
    }
}

impl Expression {
    /// The tree rebuilt under `values`: exactly [`substituted`] of it.
    /// Every variable whose name is bound becomes its constant, unbound
    /// variables are left untouched, and each rebuilt node is
    /// simplified, so a fully bound tree whose functions all fold
    /// collapses to a single constant.
    pub fn with(&self, values: &Bindings) -> (r: Expression)
        ensures
            r == substituted(*self, values@),
        decreases *self,
    {
        match self {
            Expression::Add(l, r) => {
                let node = Expression::Add(Box::new(l.with(values)), Box::new(r.with(values)));
                node.simplified()
            },
            Expression::Subtract(l, r) => {
                let node = Expression::Subtract(
                    Box::new(l.with(values)),
                    Box::new(r.with(values)),
                );
                node.simplified()
            },
            Expression::Multiply(l, r) => {
                let node = Expression::Multiply(
                    Box::new(l.with(values)),
                    Box::new(r.with(values)),
                );
                node.simplified()
            },
            Expression::Divide(l, r) => {
                let node = Expression::Divide(Box::new(l.with(values)), Box::new(r.with(values)));
                node.simplified()
            },
            Expression::Exponentiate(l, r) => {
                let node = Expression::Exponentiate(
                    Box::new(l.with(values)),
                    Box::new(r.with(values)),
                );
                node.simplified()
            },
            Expression::Logarithm(l, r) => {
                let node = Expression::Logarithm(
                    Box::new(l.with(values)),
                    Box::new(r.with(values)),
                );
                node.simplified()
            },
            Expression::Variable(name) => {
                match values.get(*name) {
                    Some(value) => Expression::Constant(value),
                    None => Expression::Variable(*name),
                }
            },
            Expression::Constant(value) => Expression::Constant(*value),
            Expression::DerivableFunctionExpression(fun, inside) => {
                let node = Expression::DerivableFunctionExpression(
                    *fun,
                    Box::new(inside.with(values)),
                );
                node.simplified()
            },
        }
    }

    /// The numeric value of the tree under `values`.
    ///
    /// Succeeds exactly when substitution collapses the tree to a single
    /// constant, and then returns that constant's scalar; otherwise a
    /// free variable remained or a function application did not fold,
    /// and `UnresolvedEvaluation` comes back.
    pub fn evaluated(&self, values: &Bindings) -> (r: Result<Scalar, UnresolvedEvaluation>)
        ensures
            (substituted(*self, values@) matches Expression::Constant(value) ==> r == Ok::<
                Scalar,
                UnresolvedEvaluation,
            >(value)),
            !(substituted(*self, values@) is Constant) ==> r == Err::<
                Scalar,
                UnresolvedEvaluation,
            >(UnresolvedEvaluation),
    {
        match self.with(values) {
            Expression::Constant(value) => Ok(value),
            _ => Err(UnresolvedEvaluation),
        }
    }
}

} // verus!
