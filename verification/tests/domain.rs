use function_plotter::domain::{validate_domain, validate_viewport, Axis, DomainError, Viewport};
use function_plotter::double::Double;

fn double(value: f64) -> Double {
    Double::from_bits(value.to_bits())
}

fn read(text: &str) -> Option<Double> {
    text.trim().parse::<f64>().ok().map(double)
}

#[test]
fn valid_bounds_are_returned() {
    assert_eq!(
        validate_domain(read("-10"), read("10"), Axis::X),
        Ok((double(-10.0), double(10.0)))
    );
    assert_eq!(
        validate_domain(read(" -10.0 "), read("10.0"), Axis::Y),
        Ok((double(-10.0), double(10.0)))
    );
}

#[test]
fn inverted_bounds_are_refused() {
    assert_eq!(validate_domain(read("10"), read("-10"), Axis::X), Err(DomainError::Inverted(Axis::X)));
    assert_eq!(validate_domain(read("10"), read("-10"), Axis::Y), Err(DomainError::Inverted(Axis::Y)));
    assert_eq!(DomainError::Inverted(Axis::X).axis().name(), "x");
}

#[test]
fn equal_bounds_are_refused() {
    assert_eq!(validate_domain(read("3"), read("3"), Axis::X), Err(DomainError::Inverted(Axis::X)));
    assert_eq!(validate_domain(read("0"), read("-0"), Axis::X), Err(DomainError::Inverted(Axis::X)));
}

#[test]
fn unreadable_bounds_are_refused_lower_first() {
    assert_eq!(validate_domain(read("abc"), read("10"), Axis::X), Err(DomainError::InvalidMin(Axis::X)));
    assert_eq!(validate_domain(read("1"), read(""), Axis::X), Err(DomainError::InvalidMax(Axis::X)));
    assert_eq!(validate_domain(read("?"), read("?"), Axis::Y), Err(DomainError::InvalidMin(Axis::Y)));
    assert_eq!(validate_domain(None, None, Axis::X), Err(DomainError::InvalidMin(Axis::X)));
}

#[test]
fn a_bound_that_is_not_a_number_is_refused() {
    assert_eq!(validate_domain(read("NaN"), read("10"), Axis::X), Err(DomainError::Inverted(Axis::X)));
    assert_eq!(validate_domain(read("0"), read("NaN"), Axis::X), Err(DomainError::Inverted(Axis::X)));
}

#[test]
fn infinite_bounds_are_ordered() {
    assert_eq!(
        validate_domain(read("-inf"), read("inf"), Axis::X),
        Ok((double(f64::NEG_INFINITY), double(f64::INFINITY)))
    );
    assert_eq!(validate_domain(read("inf"), read("inf"), Axis::X), Err(DomainError::Inverted(Axis::X)));
}

#[test]
fn closest_bounds_are_accepted() {
    let low = 5.0f64;
    let high = f64::from_bits(low.to_bits() + 1);
    assert_eq!(validate_domain(Some(double(low)), Some(double(high)), Axis::X), Ok((double(low), double(high))));
}

#[test]
fn messages_of_domain_errors() {
    assert_eq!(DomainError::InvalidMin(Axis::X).message(), "Invalid x_min value");
    assert_eq!(DomainError::InvalidMax(Axis::X).message(), "Invalid x_max value");
    assert_eq!(DomainError::Inverted(Axis::X).message(), "x_min must be less than x_max");
    assert_eq!(DomainError::InvalidMin(Axis::Y).message(), "Invalid y_min value");
    assert_eq!(DomainError::InvalidMax(Axis::Y).message(), "Invalid y_max value");
    assert_eq!(DomainError::Inverted(Axis::Y).message(), "y_min must be less than y_max");
    assert_eq!(Axis::X.name(), "x");
    assert_eq!(Axis::Y.name(), "y");
    assert_eq!(DomainError::InvalidMax(Axis::Y).axis(), Axis::Y);
}

#[test]
fn viewport_checks_the_x_axis_first() {
    assert_eq!(
        validate_viewport(read("-10.0"), read("10.0"), read("-5"), read("5")),
        Ok(Viewport { x_min: double(-10.0), x_max: double(10.0), y_min: double(-5.0), y_max: double(5.0) })
    );
    assert_eq!(
        validate_viewport(read("x"), read("y"), read("z"), read("w")),
        Err(DomainError::InvalidMin(Axis::X))
    );
    assert_eq!(
        validate_viewport(read("1"), read("y"), read("z"), read("w")),
        Err(DomainError::InvalidMax(Axis::X))
    );
    assert_eq!(
        validate_viewport(read("1"), read("0"), read("z"), read("w")),
        Err(DomainError::Inverted(Axis::X))
    );
    assert_eq!(
        validate_viewport(read("0"), read("1"), read("z"), read("w")),
        Err(DomainError::InvalidMin(Axis::Y))
    );
    assert_eq!(
        validate_viewport(read("0"), read("1"), read("2"), read("w")),
        Err(DomainError::InvalidMax(Axis::Y))
    );
    assert_eq!(
        validate_viewport(read("0"), read("1"), read("2"), read("2")),
        Err(DomainError::Inverted(Axis::Y))
    );
}
