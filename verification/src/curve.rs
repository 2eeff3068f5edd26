//! One curve: an expression, its color and its current samples.

use vstd::prelude::*;
use crate::binder::{bind, bind_fault, BoundFunction, BoundView};
use crate::double::Double;
use crate::expression::{parse, parse_outcome, ExpressionView};
use crate::sampler::{
    function_relation, grid_relation, is_trace, lemma_retained, retain_finite, sample,
    SamplePoint,
};

verus! {

/// A color, by its red, green and blue parts.
#[derive(Clone, Copy, Debug, PartialEq, Eq, Structural)]
pub struct Color {
    pub red: u8,
    pub green: u8,
    pub blue: u8,
}

/// One curve of the plot.
///
/// The text can be changed at any time; the error and the points are those of
/// the last refresh.
#[derive(Debug)]
pub struct CurveRecord {
    expression_text: String,
    last_error: Option<String>,
    points: Vec<SamplePoint>,
    display_color: Color,
}

/// What a [`CurveRecord`] holds.
pub struct CurveView {
    pub expression_text: Seq<char>,
    pub last_error: Option<Seq<char>>,
    pub points: Seq<SamplePoint>,
    pub display_color: Color,
}

impl View for CurveRecord {
    type V = CurveView;

    closed spec fn view(&self) -> CurveView {
        CurveView {
            expression_text: self.expression_text@,
            last_error: match self.last_error {
                Some(message) => Some(message@),
                None => None,
            },
            points: self.points@,
            display_color: self.display_color,
        }
    }
}

impl DeepView for CurveRecord {
    type V = CurveView;

    open spec fn deep_view(&self) -> CurveView {
        self@
    }
}

/// The values that an evaluator may return for a bound function at `x`, as a
/// relation.
pub open spec fn evaluator_relation<E: Fn(&BoundFunction, Double) -> Double>(
    evaluate: E,
    function: BoundFunction,
) -> spec_fn(Double, Double) -> bool {
    |x: Double, y: Double| call_ensures(evaluate, (&function, x), y)
}

/// Whether `points` is a sample of the function that `function` describes:
/// what is kept of some run of the sampler on a bound function with that view.
pub open spec fn is_sample_of<
    E: Fn(&BoundFunction, Double) -> Double,
    G: Fn(Double, Double, usize, usize) -> Double,
>(
    function: BoundView,
    x_min: Double,
    x_max: Double,
    n: usize,
    evaluate: E,
    interpolate: G,
    points: Seq<SamplePoint>,
) -> bool {
    exists|bound: BoundFunction, candidates: Seq<SamplePoint>|
        {
            &&& bound@ == function
            &&& #[trigger] is_trace(
                evaluator_relation(evaluate, bound),
                grid_relation(interpolate, x_min, x_max, n),
                x_min,
                n,
                candidates,
            )
            &&& points == retain_finite(candidates)
        }
}

/// What a refresh makes of a curve.
///
/// The text and the color stay. Where the text does not parse, or does not
/// bind `x`, the message of the error is kept and the points are dropped;
/// otherwise no error is kept and the points are a sample of the function.
pub open spec fn refresh_outcome<
    E: Fn(&BoundFunction, Double) -> Double,
    G: Fn(Double, Double, usize, usize) -> Double,
>(
    before: CurveView,
    after: CurveView,
    x_min: Double,
    x_max: Double,
    n: usize,
    evaluate: E,
    interpolate: G,
) -> bool {
    &&& after.expression_text == before.expression_text
    &&& after.display_color == before.display_color
    &&& match parse_outcome(before.expression_text) {
        Err(error) => {
            &&& after.last_error == Some(error.message())
            &&& after.points == Seq::<SamplePoint>::empty()
        },
        Ok(symbols) => match bind_fault(symbols, "x"@) {
            Some(error) => {
                &&& after.last_error == Some(error.message())
                &&& after.points == Seq::<SamplePoint>::empty()
            },
            None => {
                &&& after.last_error is None
                &&& is_sample_of(
                    BoundView {
                        expression: ExpressionView { source: before.expression_text, symbols },
                        variable: "x"@,
                    },
                    x_min,
                    x_max,
                    n,
                    evaluate,
                    interpolate,
                    after.points,
                )
            },
        },
    }
}

impl CurveRecord {
    /// A curve for `expression` in `color`, with no error and no points yet.
    pub fn new(expression: &str, color: Color) -> (curve: CurveRecord)
        ensures
            curve@ == (CurveView {
                expression_text: expression@,
                last_error: None,
                points: Seq::empty(),
                display_color: color,
            }),
    {
        CurveRecord {
            expression_text: expression.to_owned(),
            last_error: None,
            points: Vec::new(),
            display_color: color,
        }
    }

    /// The text of the expression.
    pub fn expression_text(&self) -> (text: &str)
        ensures
            text@ == self@.expression_text,
    {
        self.expression_text.as_str()
    }

    /// Replaces the text of the expression. The error and the points stay as
    /// they are until the next refresh.
    pub fn set_expression_text(&mut self, text: &str)
        ensures
            final(self)@ == (CurveView { expression_text: text@, ..old(self)@ }),
    {
        self.expression_text = text.to_owned();
    }

    /// The message of the error of the last refresh, if it failed.
    pub fn last_error(&self) -> (message: Option<&str>)
        ensures
            match message {
                Some(text) => self@.last_error == Some(text@),
                None => self@.last_error is None,
            },
    {
        match &self.last_error {
            Some(text) => Some(text.as_str()),
            None => None,
        }
    }

    /// The points of the last refresh.
    pub fn points(&self) -> (points: &Vec<SamplePoint>)
        ensures
            points@ == self@.points,
    {
        &self.points
    }

    /// The color of the curve.
    pub fn display_color(&self) -> (color: Color)
        ensures
            color == self@.display_color,
    {
        self.display_color
    }

    /// Parses the text, binds `x` and samples the function over the domain.
    ///
    /// `evaluate` gives the value of a bound function at a position and
    /// `interpolate` places position `i` of `n` between the bounds.
    pub fn refresh<
        E: Fn(&BoundFunction, Double) -> Double,
        G: Fn(Double, Double, usize, usize) -> Double,
    >(&mut self, x_min: Double, x_max: Double, n: usize, evaluate: &E, interpolate: &G)
        requires
            forall|function: BoundFunction, x: Double| call_requires(*evaluate, (&function, x)),
            forall|i: usize| 0 < n && i <= n ==> call_requires(*interpolate, (x_min, x_max, i, n)),
        ensures
            refresh_outcome(old(self)@, final(self)@, x_min, x_max, n, *evaluate, *interpolate),
    {
        let parsed = match parse(self.expression_text.as_str()) {
            Ok(parsed) => parsed,
            Err(error) => {
                self.last_error = Some(error.message());
                self.points = Vec::new();
                return ;
            },
        };
        let function = match bind(parsed, "x") {
            Ok(function) => function,
            Err(error) => {
                self.last_error = Some(error.message());
                self.points = Vec::new();
                return ;
            },
        };
        let f = |x: Double| -> (y: Double)
            ensures
                call_ensures(*evaluate, (&function, x), y),
            { evaluate(&function, x) };
        let points = sample(&f, x_min, x_max, n, interpolate);
        proof {
            let candidates = choose|candidates: Seq<SamplePoint>|
                {
                    &&& is_trace(
                        function_relation(f),
                        grid_relation(*interpolate, x_min, x_max, n),
                        x_min,
                        n,
                        candidates,
                    )
                    &&& points@ == retain_finite(candidates)
                };
            assert(is_trace(
                evaluator_relation(*evaluate, function),
                grid_relation(*interpolate, x_min, x_max, n),
                x_min,
                n,
                candidates,
            ));
        }
        self.last_error = None;
        self.points = points;
    }
}

/// Whatever the text, a refresh leaves a curve that can be drawn: an error and
/// no points, or no error and at most `n + 1` points, each of them finite.
pub proof fn lemma_refresh_leaves_finite_points<
    E: Fn(&BoundFunction, Double) -> Double,
    G: Fn(Double, Double, usize, usize) -> Double,
>(
    before: CurveView,
    after: CurveView,
    x_min: Double,
    x_max: Double,
    n: usize,
    evaluate: E,
    interpolate: G,
)
    requires
        refresh_outcome(before, after, x_min, x_max, n, evaluate, interpolate),
    ensures
        after.last_error is Some ==> after.points.len() == 0,
        after.points.len() <= n + 1,
        forall|k: int| 0 <= k < after.points.len() ==> (#[trigger] after.points[k]).y.is_finite(),
{
    if after.last_error is None {
        let symbols = parse_outcome(before.expression_text)->Ok_0;
        let function = BoundView {
            expression: ExpressionView { source: before.expression_text, symbols },
            variable: "x"@,
        };
        let (bound, candidates) = choose|bound: BoundFunction, candidates: Seq<SamplePoint>|
            {
                &&& bound@ == function
                &&& #[trigger] is_trace(
                    evaluator_relation(evaluate, bound),
                    grid_relation(interpolate, x_min, x_max, n),
                    x_min,
                    n,
                    candidates,
                )
                &&& after.points == retain_finite(candidates)
            };
        lemma_retained(candidates);
    }
}

/// An evaluator that gives one value only for a function and a position, and
/// the same value for two bound functions that stand for the same thing.
pub open spec fn evaluator_is_pure<E: Fn(&BoundFunction, Double) -> Double>(evaluate: E) -> bool {
    forall|first: BoundFunction, second: BoundFunction, x: Double, y: Double, z: Double|
        first@ == second@ && #[trigger] call_ensures(evaluate, (&first, x), y)
            && #[trigger] call_ensures(evaluate, (&second, x), z) ==> y == z
}

/// An interpolation that gives one position only for each index.
pub open spec fn interpolation_is_pure<G: Fn(Double, Double, usize, usize) -> Double>(
    interpolate: G,
) -> bool {
    forall|x_min: Double, x_max: Double, i: usize, n: usize, a: Double, b: Double|
        #[trigger] call_ensures(interpolate, (x_min, x_max, i, n), a) && #[trigger] call_ensures(
            interpolate,
            (x_min, x_max, i, n),
            b,
        ) ==> a == b
}

/// With a pure evaluator and a pure interpolation a function has one sample
/// only.
pub proof fn lemma_sample_of_unique<
    E: Fn(&BoundFunction, Double) -> Double,
    G: Fn(Double, Double, usize, usize) -> Double,
>(
    function: BoundView,
    x_min: Double,
    x_max: Double,
    n: usize,
    evaluate: E,
    interpolate: G,
    first: Seq<SamplePoint>,
    second: Seq<SamplePoint>,
)
    requires
        evaluator_is_pure(evaluate),
        interpolation_is_pure(interpolate),
        is_sample_of(function, x_min, x_max, n, evaluate, interpolate, first),
        is_sample_of(function, x_min, x_max, n, evaluate, interpolate, second),
    ensures
        first == second,
{
    let grid = grid_relation(interpolate, x_min, x_max, n);
    let (f, c) = choose|f: BoundFunction, c: Seq<SamplePoint>|
        {
            &&& f@ == function
            &&& #[trigger] is_trace(evaluator_relation(evaluate, f), grid, x_min, n, c)
            &&& first == retain_finite(c)
        };
    let (g, d) = choose|g: BoundFunction, d: Seq<SamplePoint>|
        {
            &&& g@ == function
            &&& #[trigger] is_trace(evaluator_relation(evaluate, g), grid, x_min, n, d)
            &&& second == retain_finite(d)
        };
    assert forall|i: int| 0 <= i < c.len() implies c[i] == d[i] by {
        if n > 0 {
            assert(grid(i, c[i].x) && grid(i, d[i].x));
            assert(call_ensures(interpolate, (x_min, x_max, i as usize, n), c[i].x));
            assert(call_ensures(interpolate, (x_min, x_max, i as usize, n), d[i].x));
        }
        assert(c[i].x == d[i].x);
        assert(evaluator_relation(evaluate, f)(c[i].x, c[i].y));
        assert(evaluator_relation(evaluate, g)(d[i].x, d[i].y));
        assert(call_ensures(evaluate, (&f, c[i].x), c[i].y));
        assert(call_ensures(evaluate, (&g, d[i].x), d[i].y));
    }
    assert(c =~= d);
}

/// A refresh is a function of the text, the color, the domain and the count:
/// with a pure evaluator and a pure interpolation, two curves with the same
/// text and color come out of it the same, whatever they held before.
pub proof fn lemma_refresh_deterministic<
    E: Fn(&BoundFunction, Double) -> Double,
    G: Fn(Double, Double, usize, usize) -> Double,
>(
    first: CurveView,
    first_after: CurveView,
    second: CurveView,
    second_after: CurveView,
    x_min: Double,
    x_max: Double,
    n: usize,
    evaluate: E,
    interpolate: G,
)
    requires
        evaluator_is_pure(evaluate),
        interpolation_is_pure(interpolate),
        first.expression_text == second.expression_text,
        first.display_color == second.display_color,
        refresh_outcome(first, first_after, x_min, x_max, n, evaluate, interpolate),
        refresh_outcome(second, second_after, x_min, x_max, n, evaluate, interpolate),
    ensures
        first_after == second_after,
{
    match parse_outcome(first.expression_text) {
        Err(_) => {},
        Ok(symbols) => match bind_fault(symbols, "x"@) {
            Some(_) => {},
            None => {
                lemma_sample_of_unique(
                    BoundView {
                        expression: ExpressionView { source: first.expression_text, symbols },
                        variable: "x"@,
                    },
                    x_min,
                    x_max,
                    n,
                    evaluate,
                    interpolate,
                    first_after.points,
                    second_after.points,
                );
            },
        },
    }
}

/// Refreshing twice with unchanged inputs changes nothing the second time.
pub proof fn lemma_refresh_idempotent<
    E: Fn(&BoundFunction, Double) -> Double,
    G: Fn(Double, Double, usize, usize) -> Double,
>(
    start: CurveView,
    once: CurveView,
    twice: CurveView,
    x_min: Double,
    x_max: Double,
    n: usize,
    evaluate: E,
    interpolate: G,
)
    requires
        evaluator_is_pure(evaluate),
        interpolation_is_pure(interpolate),
        refresh_outcome(start, once, x_min, x_max, n, evaluate, interpolate),
        refresh_outcome(once, twice, x_min, x_max, n, evaluate, interpolate),
    ensures
        twice == once,
{
    lemma_refresh_deterministic(
        start,
        once,
        once,
        twice,
        x_min,
        x_max,
        n,
        evaluate,
        interpolate,
    );
}

} // verus!
