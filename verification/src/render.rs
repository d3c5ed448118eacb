//! The formatter: a canonical, fully parenthesized infix rendering of a
//! tree.  Purely presentational; nothing ever re-parses the text.
//!
//! A product with a constant within epsilon of minus one on either side
//! renders as unary negation, and a logarithm whose base is within
//! epsilon of Euler's number renders as a natural logarithm.

use vstd::prelude::*;
use vstd::string::StringExecFns;

use crate::expression::Expression;
use crate::scalar::float_text;
use crate::scalar::near_euler;
use crate::scalar::near_neg_one;
use crate::scalar::spec_near_euler;
use crate::scalar::spec_near_neg_one;
use crate::scalar::text_bits;
use crate::simplify::constant_bits;

verus! {

/// Whether the node is a constant leaf within machine epsilon of minus
/// one, the pattern the formatter renders as unary negation.
pub open spec fn near_neg_one_constant(e: Expression) -> bool {
    e is Constant && spec_near_neg_one(constant_bits(e))
}

/// Whether the node is a constant leaf within machine epsilon of Euler's
/// number, the pattern that turns a logarithm into a natural logarithm.
pub open spec fn near_euler_constant(e: Expression) -> bool {
    e is Constant && spec_near_euler(constant_bits(e))
}

/// The canonical text of a tree:
///
/// - binary nodes in fully parenthesized infix form, `(l op r)`;
/// - `-1 * x` and `x * -1` as `-(x)`;
/// - `Logarithm(e, x)` as `ln(x)`, any other base as `log_(base)(x)`;
/// - a variable as its bare name, a constant as its decimal text;
/// - a derivable function as `name(argument)`.
pub open spec fn rendered(e: Expression) -> Seq<char>
    decreases e,
{
    match e {
        Expression::Add(l, r) => "("@ + rendered(*l) + " + "@ + rendered(*r) + ")"@,
        Expression::Subtract(l, r) => "("@ + rendered(*l) + " - "@ + rendered(*r) + ")"@,
        Expression::Multiply(l, r) => {
            if near_neg_one_constant(*l) {
                "-("@ + rendered(*r) + ")"@
            } else if near_neg_one_constant(*r) {
                "-("@ + rendered(*l) + ")"@
            } else {
                "("@ + rendered(*l) + " * "@ + rendered(*r) + ")"@
            }
        },
        Expression::Divide(l, r) => "("@ + rendered(*l) + " / "@ + rendered(*r) + ")"@,
        Expression::Exponentiate(l, r) => "("@ + rendered(*l) + " ^ "@ + rendered(*r) + ")"@,
        Expression::Logarithm(l, r) => {
            if near_euler_constant(*l) {
                "ln("@ + rendered(*r) + ")"@
            } else {
                "log_("@ + rendered(*l) + ")("@ + rendered(*r) + ")"@
            }
        },
        Expression::Variable(name) => seq![name],
        Expression::Constant(value) => float_text(value.0),
        Expression::DerivableFunctionExpression(fun, inside) => fun.spec_name() + "("@ + rendered(
            *inside,
        ) + ")"@,
    }
}

/// Relies on `String::push`: appends one character.
#[verifier::external_body]
fn push_char(s: &mut String, c: char)
    ensures
        final(s)@ == old(s)@.push(c),
{
    s.push(c);
}

fn is_near_neg_one_constant(e: &Expression) -> (b: bool)
    ensures
        b == near_neg_one_constant(*e),
{
    match e {
        Expression::Constant(value) => near_neg_one(value.0),
        _ => false,
    }
}

fn is_near_euler_constant(e: &Expression) -> (b: bool)
    ensures
        b == near_euler_constant(*e),
{
    match e {
        Expression::Constant(value) => near_euler(value.0),
        _ => false,
    }
}

impl Expression {
    /// The canonical human-readable text of the tree: exactly
    /// [`rendered`] of it.
    pub fn formatted(&self) -> (r: String)
        ensures
            r@ == rendered(*self),
        decreases *self,
    {
        match self {
            Expression::Add(l, r) => {
                let mut out = String::from_str("(");
                let left = l.formatted();
                out.append(left.as_str());
                out.append(" + ");
                let right = r.formatted();
                out.append(right.as_str());
                out.append(")");
                out
            },
            Expression::Subtract(l, r) => {
                let mut out = String::from_str("(");
                let left = l.formatted();
                out.append(left.as_str());
                out.append(" - ");
                let right = r.formatted();
                out.append(right.as_str());
                out.append(")");
                out
            },
            Expression::Multiply(l, r) => {
                if is_near_neg_one_constant(l) {
                    let mut out = String::from_str("-(");
                    let right = r.formatted();
                    out.append(right.as_str());
                    out.append(")");
                    out
                } else if is_near_neg_one_constant(r) {
                    let mut out = String::from_str("-(");
                    let left = l.formatted();
                    out.append(left.as_str());
                    out.append(")");
                    out
                } else {
                    let mut out = String::from_str("(");
                    let left = l.formatted();
                    out.append(left.as_str());
                    out.append(" * ");
                    let right = r.formatted();
                    out.append(right.as_str());
                    out.append(")");
                    out
                }
            },
            Expression::Divide(l, r) => {
                let mut out = String::from_str("(");
                let left = l.formatted();
                out.append(left.as_str());
                out.append(" / ");
                let right = r.formatted();
                out.append(right.as_str());
                out.append(")");
                out
            },
            Expression::Exponentiate(l, r) => {
                let mut out = String::from_str("(");
                let left = l.formatted();
                out.append(left.as_str());
                out.append(" ^ ");
                let right = r.formatted();
                out.append(right.as_str());
                out.append(")");
                out
            },
            Expression::Logarithm(l, r) => {
                if is_near_euler_constant(l) {
                    let mut out = String::from_str("ln(");
                    let right = r.formatted();
                    out.append(right.as_str());
                    out.append(")");
                    out
                } else {
                    let mut out = String::from_str("log_(");
                    let left = l.formatted();
                    out.append(left.as_str());
                    out.append(")(");
                    let right = r.formatted();
                    out.append(right.as_str());
                    out.append(")");
                    out
                }
            },
            Expression::Variable(name) => {
                let mut out = String::new();
                push_char(&mut out, *name);
                proof {
                    assert(out@ =~= seq![*name]);
                }
                out
            },
            Expression::Constant(value) => text_bits(value.0),
            Expression::DerivableFunctionExpression(fun, inside) => {
                let mut out = String::from_str(fun.name());
                out.append("(");
                let arg = inside.formatted();
                out.append(arg.as_str());
                out.append(")");
                out
            },
        }
    }
}

} // verus!
