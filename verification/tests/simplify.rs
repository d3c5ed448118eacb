use symbolic::expression::Expression;
use symbolic::scalar::Scalar;

fn scalar(v: f64) -> Expression {
    Expression::Constant(Scalar(v.to_bits()))
}

#[test]
fn simplify() {
    let three = scalar(3.);
    let four = scalar(4.);
    let seven = scalar(7.);

    assert_eq!((three + four).simplified(), seven);

    let x = Expression::Variable('x');
    let zero = scalar(0.);
    let seven1 = scalar(7.);
    let seven2 = scalar(7.);

    assert_eq!(((x * zero) + seven1).simplified(), seven2);

    let x = Expression::Variable('x');
    let zero = scalar(0.);
    let seven = scalar(7.);
    let eight = scalar(8.);

    assert_eq!(((x ^ zero) + seven).simplified(), eight);

    let x1 = Expression::Variable('x');
    let x2 = Expression::Variable('x');
    let one = scalar(1.);

    assert_eq!((x1 ^ one).simplified(), x2);
}

#[test]
fn constant_fold_subtract() {
    assert_eq!((scalar(3.) - scalar(1.)).simplified(), scalar(2.));
}

#[test]
fn constant_fold_multiply() {
    assert_eq!((scalar(6.) * scalar(7.)).simplified(), scalar(42.));
}

#[test]
fn constant_fold_divide() {
    assert_eq!((scalar(1.) / scalar(2.)).simplified(), scalar(0.5));
}

#[test]
fn constant_fold_pow() {
    assert_eq!((scalar(2.) ^ scalar(3.)).simplified(), scalar(8.));
}

#[test]
fn constant_fold_log() {
    let log = Expression::Logarithm(Box::new(scalar(2.)), Box::new(scalar(8.)));
    if let Expression::Constant(s) = log.simplified() {
        let value = f64::from_bits(s.0);
        assert!((value - 3.0).abs() < 1e-12);
    } else {
        panic!("a logarithm of two constants should fold to a constant");
    }
}

#[test]
fn zero_power_quirk() {
    // The zero-base rule is tried before the zero-exponent rule and has no
    // guard on the exponent, so zero to the zeroth power simplifies to
    // zero here, not one.
    assert_eq!((scalar(0.) ^ scalar(0.)).simplified(), scalar(0.));
}

#[test]
fn epsilon_zero_elimination() {
    // The zero and one tests use a machine-epsilon tolerance, not exact
    // equality, so a constant of 1e-17 counts as zero.
    let x = Expression::Variable('x');
    assert_eq!((x.clone() + scalar(1e-17)).simplified(), x.clone());
    assert_eq!((x.clone() - scalar(1e-17)).simplified(), x.clone());
    assert_eq!((x.clone() * scalar(1e-17)).simplified(), scalar(0.));
}

#[test]
fn identity_elimination() {
    let x = Expression::Variable('x');
    assert_eq!((scalar(1.) * x.clone()).simplified(), x.clone());
    assert_eq!((x.clone() * scalar(1.)).simplified(), x.clone());
    assert_eq!((x.clone() / scalar(1.)).simplified(), x.clone());
    assert_eq!((scalar(0.) + x.clone()).simplified(), x.clone());
    assert_eq!((scalar(1.) ^ x.clone()).simplified(), scalar(1.));
    assert_eq!((scalar(0.) ^ x.clone()).simplified(), scalar(0.));
}

#[test]
fn idempotence_samples() {
    let samples = vec![
        (Expression::Variable('x') + scalar(0.)) * (scalar(3.) + scalar(4.)),
        (scalar(0.) ^ Expression::Variable('x')) + (Expression::Variable('y') / scalar(1.)),
        symbolic::expression::sin(&(Expression::Variable('x') ^ scalar(1.))),
        scalar(2.) ^ (Expression::Variable('x') - scalar(0.)),
        Expression::Logarithm(Box::new(scalar(2.)), Box::new(Expression::Variable('x'))),
    ];

    for sample in samples {
        let once = sample.simplified();
        assert_eq!(once.simplified(), once);
    }
}
