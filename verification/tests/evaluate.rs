use symbolic::evaluate::Bindings;
use symbolic::evaluate::UnresolvedEvaluation;
use symbolic::expression::Expression;
use symbolic::expression::sin;
use symbolic::scalar::Scalar;

fn scalar(v: f64) -> Expression {
    Expression::Constant(Scalar(v.to_bits()))
}

#[test]
fn full_binding_evaluation() {
    let exp = (scalar(0.75) * Expression::Variable('x')) + scalar(1.5);

    let mut values = Bindings::new();
    values.insert('x', Scalar(2.0f64.to_bits()));

    assert_eq!(exp.with(&values), scalar(3.0));
    assert_eq!(exp.evaluated(&values), Ok(Scalar(3.0f64.to_bits())));
}

#[test]
fn partial_binding() {
    let exp = Expression::Variable('x') + Expression::Variable('y');

    let mut values = Bindings::new();
    values.insert('x', Scalar(1.0f64.to_bits()));

    // The unbound variable stays in place.
    let expected = scalar(1.0) + Expression::Variable('y');
    assert_eq!(exp.with(&values), expected);
}

#[test]
fn unresolved_free_variable() {
    let exp = Expression::Variable('x') + Expression::Variable('y');

    let mut values = Bindings::new();
    values.insert('x', Scalar(1.0f64.to_bits()));

    assert_eq!(exp.evaluated(&values), Err(UnresolvedEvaluation));
}

#[test]
fn unresolved_named_function() {
    // No numeric rule evaluates a named function, so its application
    // cannot fold to a constant even under a full binding.
    let exp = sin(&Expression::Variable('x'));

    let mut values = Bindings::new();
    values.insert('x', Scalar(0.5f64.to_bits()));

    assert_eq!(exp.evaluated(&values), Err(UnresolvedEvaluation));
}

#[test]
fn binding_override() {
    let mut values = Bindings::new();
    values.insert('x', Scalar(1.0f64.to_bits()));
    values.insert('x', Scalar(2.0f64.to_bits()));

    assert_eq!(values.get('x'), Some(Scalar(2.0f64.to_bits())));
    assert_eq!(values.get('y'), None);

    assert_eq!(Expression::Variable('x').evaluated(&values), Ok(Scalar(2.0f64.to_bits())));
}

#[test]
fn evaluation_folds_powers() {
    let exp = Expression::Variable('x') ^ scalar(2.);

    let mut values = Bindings::new();
    values.insert('x', Scalar(3.0f64.to_bits()));

    assert_eq!(exp.evaluated(&values), Ok(Scalar(9.0f64.to_bits())));
}
