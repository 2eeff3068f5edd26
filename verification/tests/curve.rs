use function_plotter::binder::BoundFunction;
use function_plotter::curve::{Color, CurveRecord};
use function_plotter::domain::{Axis, DomainError};
use function_plotter::double::Double;
use function_plotter::plot::{palette_color, refresh_all, CurveList, ListError};
use function_plotter::sampler::SamplePoint;

fn double(value: f64) -> Double {
    Double::from_bits(value.to_bits())
}

fn number(value: Double) -> f64 {
    f64::from_bits(value.to_bits())
}

fn read(text: &str) -> Option<Double> {
    text.trim().parse::<f64>().ok().map(double)
}

fn interpolate(x_min: Double, x_max: Double, i: usize, n: usize) -> Double {
    double(number(x_min) + (number(x_max) - number(x_min)) * (i as f64) / (n as f64))
}

fn evaluate(function: &BoundFunction, x: Double) -> Double {
    let context = ((function.variable(), number(x)), meval::Context::new());
    double(function.expression().expression().eval_with_context(context).unwrap())
}

fn point(x: f64, y: f64) -> SamplePoint {
    SamplePoint { x: double(x), y: double(y) }
}

const CRIMSON: Color = Color { red: 220, green: 20, blue: 60 };
const ROYAL_BLUE: Color = Color { red: 65, green: 105, blue: 225 };
const FOREST_GREEN: Color = Color { red: 34, green: 139, blue: 34 };
const DARK_ORANGE: Color = Color { red: 255, green: 140, blue: 0 };
const BLUE_VIOLET: Color = Color { red: 138, green: 43, blue: 226 };

#[test]
fn a_new_curve_is_empty() {
    let curve = CurveRecord::new("sin(x)", CRIMSON);
    assert_eq!(curve.expression_text(), "sin(x)");
    assert_eq!(curve.last_error(), None);
    assert!(curve.points().is_empty());
    assert_eq!(curve.display_color(), CRIMSON);
}

#[test]
fn refresh_samples_the_function() {
    let mut curve = CurveRecord::new("x ^ 2", CRIMSON);
    curve.refresh(double(-2.0), double(2.0), 4, &evaluate, &interpolate);
    assert_eq!(curve.last_error(), None);
    assert_eq!(
        curve.points(),
        &vec![point(-2.0, 4.0), point(-1.0, 1.0), point(0.0, 0.0), point(1.0, 1.0), point(2.0, 4.0)]
    );
    assert_eq!(curve.expression_text(), "x ^ 2");
    assert_eq!(curve.display_color(), CRIMSON);
}

#[test]
fn refresh_drops_what_is_not_finite() {
    let mut curve = CurveRecord::new("1 / x", CRIMSON);
    curve.refresh(double(-1.0), double(1.0), 2, &evaluate, &interpolate);
    assert_eq!(curve.last_error(), None);
    assert_eq!(curve.points(), &vec![point(-1.0, -1.0), point(1.0, 1.0)]);
}

#[test]
fn refresh_twice_gives_the_same_points() {
    for text in ["sin(x)", "abs(ln(x-1)/ln(x-2))", "foo(x)", "x + y", "", "1 / x"].iter() {
        let mut curve = CurveRecord::new(text, ROYAL_BLUE);
        curve.refresh(double(-10.0), double(10.0), 1000, &evaluate, &interpolate);
        let points = curve.points().clone();
        let error = curve.last_error().map(|text| text.to_string());
        curve.refresh(double(-10.0), double(10.0), 1000, &evaluate, &interpolate);
        assert_eq!(curve.points(), &points);
        assert_eq!(curve.last_error().map(|text| text.to_string()), error);
        let mut other = CurveRecord::new(text, ROYAL_BLUE);
        other.refresh(double(-10.0), double(10.0), 1000, &evaluate, &interpolate);
        assert_eq!(other.points(), &points);
    }
}

#[test]
fn unknown_function_clears_the_points() {
    let mut curve = CurveRecord::new("sin(x)", CRIMSON);
    curve.refresh(double(0.0), double(1.0), 10, &evaluate, &interpolate);
    assert_eq!(curve.points().len(), 11);
    curve.set_expression_text("foo(x)");
    assert_eq!(curve.points().len(), 11);
    assert_eq!(curve.last_error(), None);
    curve.refresh(double(0.0), double(1.0), 10, &evaluate, &interpolate);
    assert!(curve.points().is_empty());
    assert_eq!(curve.last_error(), Some("Parse error: function `foo`: Unknown function"));
    assert_eq!(curve.expression_text(), "foo(x)");
}

#[test]
fn syntax_failure_clears_the_points() {
    let mut curve = CurveRecord::new("x", CRIMSON);
    curve.refresh(double(0.0), double(1.0), 10, &evaluate, &interpolate);
    assert_eq!(curve.points().len(), 11);
    curve.set_expression_text("x +");
    curve.refresh(double(0.0), double(1.0), 10, &evaluate, &interpolate);
    assert!(curve.points().is_empty());
    assert_eq!(
        curve.last_error(),
        Some("Parse error: Parse error: Missing argument at the end of expression.")
    );
    curve.set_expression_text("   ");
    curve.refresh(double(0.0), double(1.0), 10, &evaluate, &interpolate);
    assert!(curve.points().is_empty());
    assert_eq!(curve.last_error(), Some("Parse error: empty expression"));
}

#[test]
fn unknown_name_clears_the_points() {
    let mut curve = CurveRecord::new("x", CRIMSON);
    curve.refresh(double(0.0), double(1.0), 10, &evaluate, &interpolate);
    curve.set_expression_text("x + y");
    curve.refresh(double(0.0), double(1.0), 10, &evaluate, &interpolate);
    assert!(curve.points().is_empty());
    assert_eq!(
        curve.last_error(),
        Some("Binding error: Evaluation error: unknown variable `y`.")
    );
}

#[test]
fn a_good_text_clears_the_error() {
    let mut curve = CurveRecord::new("foo(x)", CRIMSON);
    curve.refresh(double(0.0), double(1.0), 2, &evaluate, &interpolate);
    assert!(curve.last_error().is_some());
    curve.set_expression_text("x");
    assert!(curve.last_error().is_some());
    curve.refresh(double(0.0), double(1.0), 2, &evaluate, &interpolate);
    assert_eq!(curve.last_error(), None);
    assert_eq!(curve.points(), &vec![point(0.0, 0.0), point(0.5, 0.5), point(1.0, 1.0)]);
}

#[test]
fn the_standard_list() {
    let list = CurveList::standard();
    assert_eq!(list.len(), 2);
    assert_eq!(list.curves()[0].expression_text(), "abs(ln(x-1)/ln(x-2))");
    assert_eq!(list.curves()[0].display_color(), CRIMSON);
    assert_eq!(list.curves()[1].expression_text(), "sin(x)");
    assert_eq!(list.curves()[1].display_color(), ROYAL_BLUE);
    assert!(list.curves().iter().all(|curve| curve.points().is_empty()));
    assert!(list.get(1).is_some());
    assert!(list.get(2).is_none());
}

#[test]
fn palette_is_taken_in_turn() {
    assert_eq!(palette_color(0), CRIMSON);
    assert_eq!(palette_color(1), ROYAL_BLUE);
    assert_eq!(palette_color(2), FOREST_GREEN);
    assert_eq!(palette_color(3), DARK_ORANGE);
    assert_eq!(palette_color(4), BLUE_VIOLET);
    assert_eq!(palette_color(5), CRIMSON);
    assert_eq!(palette_color(12), FOREST_GREEN);
    assert_eq!(palette_color(usize::MAX), palette_color(usize::MAX % 5));
    let mut list = CurveList::standard();
    assert_eq!(list.next_color(), FOREST_GREEN);
    list.add_curve("x", list.next_color());
    assert_eq!(list.next_color(), DARK_ORANGE);
    assert_eq!(list.curves()[2].display_color(), FOREST_GREEN);
    assert_eq!(list.curves()[2].expression_text(), "x");
}

#[test]
fn the_last_curve_stays() {
    let mut list = CurveList::new(CurveRecord::new("x", CRIMSON));
    assert_eq!(list.len(), 1);
    assert_eq!(list.remove_curve(0), Err(ListError::LastCurve));
    assert_eq!(list.remove_curve(7), Err(ListError::LastCurve));
    assert_eq!(list.len(), 1);
    assert_eq!(list.curves()[0].expression_text(), "x");
}

#[test]
fn curves_are_removed_by_index() {
    let mut list = CurveList::standard();
    list.add_curve("x", FOREST_GREEN);
    assert_eq!(list.remove_curve(3), Err(ListError::NoSuchCurve));
    assert_eq!(list.len(), 3);
    assert_eq!(list.remove_curve(1), Ok(()));
    assert_eq!(list.len(), 2);
    assert_eq!(list.curves()[0].expression_text(), "abs(ln(x-1)/ln(x-2))");
    assert_eq!(list.curves()[1].expression_text(), "x");
    assert_eq!(list.remove_curve(0), Ok(()));
    assert_eq!(list.curves()[0].expression_text(), "x");
    assert_eq!(list.remove_curve(0), Err(ListError::LastCurve));
}

#[test]
fn no_sequence_of_changes_empties_the_list() {
    let mut list = CurveList::standard();
    let mut state: u64 = 42;
    for _ in 0..2000 {
        state = state.wrapping_mul(6364136223846793005).wrapping_add(1442695040888963407);
        let choice = (state >> 33) % 4;
        let index = ((state >> 40) % 6) as usize;
        let before = list.len();
        if choice == 0 {
            list.add_curve("x", list.next_color());
            assert_eq!(list.len(), before + 1);
        } else {
            let result = list.remove_curve(index);
            if before == 1 {
                assert_eq!(result, Err(ListError::LastCurve));
                assert_eq!(list.len(), 1);
            } else if index >= before {
                assert_eq!(result, Err(ListError::NoSuchCurve));
                assert_eq!(list.len(), before);
            } else {
                assert_eq!(result, Ok(()));
                assert_eq!(list.len(), before - 1);
            }
        }
        assert!(list.len() >= 1);
    }
}

#[test]
fn the_text_of_a_curve_in_a_list_can_be_changed() {
    let mut list = CurveList::standard();
    assert_eq!(list.set_expression_text(1, "cos(x)"), Ok(()));
    assert_eq!(list.curves()[1].expression_text(), "cos(x)");
    assert_eq!(list.curves()[0].expression_text(), "abs(ln(x-1)/ln(x-2))");
    assert_eq!(list.set_expression_text(2, "cos(x)"), Err(ListError::NoSuchCurve));
    assert_eq!(list.len(), 2);
}

#[test]
fn refresh_all_refreshes_every_curve() {
    let mut list = CurveList::standard();
    list.add_curve("foo(x)", FOREST_GREEN);
    list.add_curve("x", DARK_ORANGE);
    let result = list.refresh_all(
        read("-10.0"),
        read("10.0"),
        read("-10.0"),
        read("10.0"),
        1000,
        &evaluate,
        &interpolate,
    );
    assert_eq!(result, Ok(()));
    assert_eq!(list.curves()[0].points().len(), 400);
    assert_eq!(list.curves()[0].last_error(), None);
    assert_eq!(list.curves()[1].points().len(), 1001);
    assert!(list.curves()[2].points().is_empty());
    assert_eq!(
        list.curves()[2].last_error(),
        Some("Parse error: function `foo`: Unknown function")
    );
    assert_eq!(list.curves()[3].points().len(), 1001);
    assert_eq!(list.curves()[3].points()[1000], point(10.0, 10.0));
}

#[test]
fn a_domain_error_leaves_every_curve_as_it_is() {
    let mut list = CurveList::standard();
    list.refresh_all(read("0"), read("1"), read("0"), read("1"), 10, &evaluate, &interpolate)
        .unwrap();
    let first = list.curves()[0].points().clone();
    let second = list.curves()[1].points().clone();
    assert_eq!(second.len(), 11);
    list.set_expression_text(1, "foo(x)").unwrap();
    let cases = [
        (("abc", "1", "0", "1"), DomainError::InvalidMin(Axis::X)),
        (("0", "", "0", "1"), DomainError::InvalidMax(Axis::X)),
        (("10", "-10", "0", "1"), DomainError::Inverted(Axis::X)),
        (("1", "1", "0", "1"), DomainError::Inverted(Axis::X)),
        (("0", "1", "?", "1"), DomainError::InvalidMin(Axis::Y)),
        (("0", "1", "0", "1e"), DomainError::InvalidMax(Axis::Y)),
        (("0", "1", "2", "1"), DomainError::Inverted(Axis::Y)),
    ];
    for ((x_min, x_max, y_min, y_max), error) in cases.iter() {
        let result = list.refresh_all(
            read(x_min),
            read(x_max),
            read(y_min),
            read(y_max),
            10,
            &evaluate,
            &interpolate,
        );
        assert_eq!(result, Err(*error));
        assert_eq!(list.curves()[0].points(), &first);
        assert_eq!(list.curves()[1].points(), &second);
        assert_eq!(list.curves()[1].last_error(), None);
        assert_eq!(list.curves()[1].expression_text(), "foo(x)");
    }
}

#[test]
fn refresh_all_on_a_vector_of_curves() {
    let mut curves = vec![CurveRecord::new("2 * x", CRIMSON), CurveRecord::new("x +", ROYAL_BLUE)];
    let result = refresh_all(
        &mut curves,
        read("0"),
        read("2"),
        read("-1"),
        read("1"),
        2,
        &evaluate,
        &interpolate,
    );
    assert_eq!(result, Ok(()));
    assert_eq!(curves[0].points(), &vec![point(0.0, 0.0), point(1.0, 2.0), point(2.0, 4.0)]);
    assert!(curves[1].points().is_empty());
    assert!(curves[1].last_error().is_some());
    let mut none: Vec<CurveRecord> = Vec::new();
    assert_eq!(
        refresh_all(&mut none, read("0"), read("2"), read("-1"), read("1"), 2, &evaluate, &interpolate),
        Ok(())
    );
    assert_eq!(
        refresh_all(&mut none, read("2"), read("0"), read("-1"), read("1"), 2, &evaluate, &interpolate),
        Err(DomainError::Inverted(Axis::X))
    );
}
