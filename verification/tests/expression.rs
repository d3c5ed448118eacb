use symbolic::expression::Expression;
use symbolic::scalar::Scalar;

fn scalar(v: f64) -> Expression {
    Expression::Constant(Scalar(v.to_bits()))
}

#[test]
fn eq() {
    assert_eq!(
        Expression::Add(Box::new(Expression::Variable('x')), Box::new(scalar(5.))),
        Expression::Add(Box::new(Expression::Variable('x')), Box::new(scalar(5.))),
    );

    assert_eq!(
        Expression::Add(Box::new(scalar(5.)), Box::new(Expression::Variable('x'))),
        Expression::Add(Box::new(Expression::Variable('x')), Box::new(scalar(5.))),
    );

    assert_ne!(
        Expression::Divide(Box::new(scalar(5.)), Box::new(Expression::Variable('x'))),
        Expression::Divide(Box::new(Expression::Variable('x')), Box::new(scalar(5.))),
    );
}

#[test]
fn commutative_equality() {
    let x = Expression::Variable('x');

    assert_eq!(scalar(5.) + x.clone(), x.clone() + scalar(5.));
    assert_eq!(scalar(5.) * x.clone(), x.clone() * scalar(5.));
    assert_ne!(scalar(5.) - x.clone(), x.clone() - scalar(5.));
}

#[test]
fn float_equality() {
    assert!(Scalar(0.0f64.to_bits()) == Scalar((-0.0f64).to_bits()));
    assert_eq!(scalar(0.0), scalar(-0.0));

    let quiet = scalar(f64::NAN);
    assert_ne!(quiet.clone(), quiet.clone());
}

#[test]
fn display() {
    let ex: Expression = scalar(1.) / (scalar(1.) - (Expression::Variable('x') ^ scalar(2.)));
    println!("f(x)={}", ex.formatted());
}

#[test]
fn sin() {
    let ex: Expression = scalar(1.) / (scalar(1.) - (Expression::Variable('x') ^ scalar(2.)));

    println!("f(x)={}", symbolic::expression::sin(&ex).formatted());
}

#[test]
fn variable_display() {
    assert_eq!(Expression::Variable('x').formatted(), "x");
}

#[test]
fn constant_display() {
    assert_eq!(scalar(7.).formatted(), "7");
}

#[test]
fn negation_display() {
    let left = scalar(-1.) * Expression::Variable('x');
    assert_eq!(left.formatted(), "-(x)");

    let right = Expression::Variable('x') * scalar(-1.);
    assert_eq!(right.formatted(), "-(x)");
}

#[test]
fn natural_log_display() {
    let ln = Expression::Logarithm(
        Box::new(scalar(std::f64::consts::E)),
        Box::new(Expression::Variable('x')),
    );
    assert_eq!(ln.formatted(), "ln(x)");
}

#[test]
fn general_log_display() {
    let log = Expression::Logarithm(Box::new(scalar(2.)), Box::new(Expression::Variable('x')));
    let text = log.formatted();
    assert!(text.starts_with("log_("));
    assert!(text.ends_with(")(x)"));
}

#[test]
fn function_display() {
    let x = Expression::Variable('x');
    assert_eq!(symbolic::expression::sin(&x).formatted(), "sin(x)");
    assert_eq!(symbolic::expression::cos(&x).formatted(), "cos(x)");
}

#[test]
fn infix_display() {
    let sum = Expression::Variable('x') + Expression::Variable('y');
    assert_eq!(sum.formatted(), "(x + y)");

    let power = Expression::Variable('x') ^ Expression::Variable('n');
    assert_eq!(power.formatted(), "(x ^ n)");
}
