//! The list of curves of a plot.
//!
//! A plot always shows at least one curve.

use vstd::prelude::*;
use crate::binder::BoundFunction;
use crate::curve::{refresh_outcome, Color, CurveRecord, CurveView};
use crate::domain::{validate_viewport, viewport_outcome, DomainError};
use crate::double::Double;

verus! {

/// The colors that new curves are given in turn.
pub open spec fn palette() -> Seq<Color> {
    seq![
        Color { red: 220, green: 20, blue: 60 },
        Color { red: 65, green: 105, blue: 225 },
        Color { red: 34, green: 139, blue: 34 },
        Color { red: 255, green: 140, blue: 0 },
        Color { red: 138, green: 43, blue: 226 },
    ]
}

/// The color for the curve that is added to `count` others.
pub fn palette_color(count: usize) -> (color: Color)
    ensures
        color == palette()[count as int % 5],
{
    let turn: usize = count % 5;
    if turn == 0 {
        Color { red: 220, green: 20, blue: 60 }
    } else if turn == 1 {
        Color { red: 65, green: 105, blue: 225 }
    } else if turn == 2 {
        Color { red: 34, green: 139, blue: 34 }
    } else if turn == 3 {
        Color { red: 255, green: 140, blue: 0 }
    } else {
        Color { red: 138, green: 43, blue: 226 }
    }
}

/// Refreshes every curve over the x-domain, once the bounds of both axes are
/// found valid.
///
/// Where the bounds are refused no curve is touched.
pub fn refresh_all<
    E: Fn(&BoundFunction, Double) -> Double,
    G: Fn(Double, Double, usize, usize) -> Double,
>(
    curves: &mut Vec<CurveRecord>,
    x_min: Option<Double>,
    x_max: Option<Double>,
    y_min: Option<Double>,
    y_max: Option<Double>,
    n: usize,
    evaluate: &E,
    interpolate: &G,
) -> (r: Result<(), DomainError>)
    requires
        forall|function: BoundFunction, x: Double| call_requires(*evaluate, (&function, x)),
        forall|low: Double, high: Double, i: usize|
            0 < n && i <= n ==> call_requires(*interpolate, (low, high, i, n)),
    ensures
        match viewport_outcome(x_min, x_max, y_min, y_max) {
            Err(error) => r == Err::<(), DomainError>(error) && *final(curves) == *old(curves),
            Ok(view) => {
                &&& r is Ok
                &&& final(curves)@.len() == old(curves)@.len()
                &&& forall|k: int|
                    0 <= k < old(curves)@.len() ==> refresh_outcome(
                        (#[trigger] old(curves)@[k])@,
                        final(curves)@[k]@,
                        view.x_min,
                        view.x_max,
                        n,
                        *evaluate,
                        *interpolate,
                    )
            },
        },
{
    let view = match validate_viewport(x_min, x_max, y_min, y_max) {
        Ok(view) => view,
        Err(error) => {
            return Err(error);
        },
    };
    let ghost before = curves@;
    let mut i: usize = 0;
    while i < curves.len()
        invariant
            i <= curves.len(),
            curves@.len() == before.len(),
            forall|function: BoundFunction, x: Double| call_requires(*evaluate, (&function, x)),
            forall|low: Double, high: Double, i: usize|
                0 < n && i <= n ==> call_requires(*interpolate, (low, high, i, n)),
            forall|k: int|
                0 <= k < i ==> refresh_outcome(
                    (#[trigger] before[k])@,
                    curves@[k]@,
                    view.x_min,
                    view.x_max,
                    n,
                    *evaluate,
                    *interpolate,
                ),
            forall|k: int| i <= k < before.len() ==> curves@[k] == #[trigger] before[k],
        decreases curves.len() - i,
    {
        curves[i].refresh(view.x_min, view.x_max, n, evaluate, interpolate);
        i += 1;
    }
    Ok(())
}

/// Why a change to the list is refused.
#[derive(Clone, Copy, Debug, PartialEq, Eq, Structural)]
pub enum ListError {
    /// The one curve left cannot be removed.
    LastCurve,
    /// The list has no curve at that index.
    NoSuchCurve,
}

/// A curve as it is when it joins a list: no error and no points yet.
pub open spec fn fresh_curve(text: Seq<char>, color: Color) -> CurveView {
    CurveView {
        expression_text: text,
        last_error: None,
        points: Seq::empty(),
        display_color: color,
    }
}

/// The list after a curve was added at its end.
pub open spec fn after_add(curves: Seq<CurveView>, text: Seq<char>, color: Color) -> Seq<
    CurveView,
> {
    curves.push(fresh_curve(text, color))
}

/// Why the curve at `index` cannot be removed, if it cannot.
pub open spec fn removal_fault(curves: Seq<CurveView>, index: usize) -> Option<ListError> {
    if curves.len() <= 1 {
        Some(ListError::LastCurve)
    } else if index >= curves.len() {
        Some(ListError::NoSuchCurve)
    } else {
        None
    }
}

/// The list after the removal of the curve at `index` was asked for: without
/// that curve, or unchanged where the removal is refused.
pub open spec fn after_remove(curves: Seq<CurveView>, index: usize) -> Seq<CurveView> {
    if removal_fault(curves, index) is None {
        curves.remove(index as int)
    } else {
        curves
    }
}

/// A change to a list of curves.
pub enum ListChange {
    Add { text: Seq<char>, color: Color },
    Remove { index: usize },
}

/// The list after one change.
pub open spec fn after_change(curves: Seq<CurveView>, change: ListChange) -> Seq<CurveView> {
    match change {
        ListChange::Add { text, color } => after_add(curves, text, color),
        ListChange::Remove { index } => after_remove(curves, index),
    }
}

/// The list after a sequence of changes, made in their order.
pub open spec fn after_changes(curves: Seq<CurveView>, changes: Seq<ListChange>) -> Seq<CurveView>
    decreases changes.len(),
{
    if changes.len() == 0 {
        curves
    } else {
        after_change(after_changes(curves, changes.drop_last()), changes.last())
    }
}

/// No sequence of additions and removals empties a list that holds a curve.
pub proof fn lemma_never_empty(curves: Seq<CurveView>, changes: Seq<ListChange>)
    requires
        curves.len() >= 1,
    ensures
        after_changes(curves, changes).len() >= 1,
    decreases changes.len(),
{
    if changes.len() > 0 {
        lemma_never_empty(curves, changes.drop_last());
    }
}

/// The curves of a plot: at least one, in the order in which they are drawn.
#[derive(Debug)]
pub struct CurveList {
    curves: Vec<CurveRecord>,
}

impl View for CurveList {
    type V = Seq<CurveView>;

    closed spec fn view(&self) -> Seq<CurveView> {
        self.curves.deep_view()
    }
}

impl CurveList {
    /// The invariant of the list: it holds a curve.
    pub open spec fn wf(&self) -> bool {
        self@.len() >= 1
    }

    /// A list of one curve.
    pub fn new(first: CurveRecord) -> (list: CurveList)
        ensures
            list@ == seq![first@],
            list.wf(),
    {
        let mut curves: Vec<CurveRecord> = Vec::new();
        curves.push(first);
        let list = CurveList { curves };
        assert(list@ =~= seq![first@]);
        list
    }

    /// The two curves that a plot starts with.
    pub fn standard() -> (list: CurveList)
        ensures
            list@ == seq![
                fresh_curve("abs(ln(x-1)/ln(x-2))"@, palette()[0]),
                fresh_curve("sin(x)"@, palette()[1]),
            ],
            list.wf(),
    {
        let mut curves: Vec<CurveRecord> = Vec::new();
        curves.push(CurveRecord::new("abs(ln(x-1)/ln(x-2))", palette_color(0)));
        curves.push(CurveRecord::new("sin(x)", palette_color(1)));
        let list = CurveList { curves };
        assert(list@ =~= seq![
            fresh_curve("abs(ln(x-1)/ln(x-2))"@, palette()[0]),
            fresh_curve("sin(x)"@, palette()[1]),
        ]);
        list
    }

    /// The number of curves.
    pub fn len(&self) -> (count: usize)
        ensures
            count == self@.len(),
    {
        self.curves.len()
    }

    /// The curves.
    pub fn curves(&self) -> (curves: &Vec<CurveRecord>)
        ensures
            curves.deep_view() == self@,
    {
        &self.curves
    }

    /// The curve at `index`, if there is one.
    pub fn get(&self, index: usize) -> (curve: Option<&CurveRecord>)
        ensures
            match curve {
                Some(curve) => index < self@.len() && curve@ == self@[index as int],
                None => index >= self@.len(),
            },
    {
        if index < self.curves.len() {
            Some(&self.curves[index])
        } else {
            None
        }
    }

    /// The color that the next curve is given: the colors of the palette are
    /// taken in turn, by the number of curves in the list.
    pub fn next_color(&self) -> (color: Color)
        ensures
            color == palette()[self@.len() as int % 5],
    {
        palette_color(self.curves.len())
    }

    /// Adds a curve for `text` in `color` at the end of the list.
    pub fn add_curve(&mut self, text: &str, color: Color)
        ensures
            final(self)@ == after_add(old(self)@, text@, color),
            final(self).wf(),
    {
        self.curves.push(CurveRecord::new(text, color));
        assert(self@ =~= after_add(old(self)@, text@, color));
    }

    /// Removes the curve at `index`.
    ///
    /// The removal is refused where it would leave no curve, and where the
    /// list has no curve at `index`; the list is then unchanged.
    pub fn remove_curve(&mut self, index: usize) -> (r: Result<(), ListError>)
        ensures
            final(self)@ == after_remove(old(self)@, index),
            old(self).wf() ==> final(self).wf(),
            match r {
                Ok(_) => removal_fault(old(self)@, index) is None,
                Err(error) => removal_fault(old(self)@, index) == Some(error),
            },
    {
        if self.curves.len() <= 1 {
            Err(ListError::LastCurve)
        } else if index >= self.curves.len() {
            Err(ListError::NoSuchCurve)
        } else {
            self.curves.remove(index);
            assert(self@ =~= old(self)@.remove(index as int));
            Ok(())
        }
    }

    /// Replaces the text of the curve at `index`.
    pub fn set_expression_text(&mut self, index: usize, text: &str) -> (r: Result<(), ListError>)
        ensures
            old(self).wf() ==> final(self).wf(),
            match r {
                Ok(_) => {
                    &&& index < old(self)@.len()
                    &&& final(self)@ == old(self)@.update(
                        index as int,
                        CurveView { expression_text: text@, ..old(self)@[index as int] },
                    )
                },
                Err(error) => {
                    &&& error == ListError::NoSuchCurve
                    &&& index >= old(self)@.len()
                    &&& final(self)@ == old(self)@
                },
            },
    {
        if index < self.curves.len() {
            self.curves[index].set_expression_text(text);
            assert(self@ =~= old(self)@.update(
                index as int,
                CurveView { expression_text: text@, ..old(self)@[index as int] },
            ));
            Ok(())
        } else {
            Err(ListError::NoSuchCurve)
        }
    }

    /// Refreshes every curve of the list; see [`refresh_all`].
    pub fn refresh_all<
        E: Fn(&BoundFunction, Double) -> Double,
        G: Fn(Double, Double, usize, usize) -> Double,
    >(
        &mut self,
        x_min: Option<Double>,
        x_max: Option<Double>,
        y_min: Option<Double>,
        y_max: Option<Double>,
        n: usize,
        evaluate: &E,
        interpolate: &G,
    ) -> (r: Result<(), DomainError>)
        requires
            forall|function: BoundFunction, x: Double| call_requires(*evaluate, (&function, x)),
            forall|low: Double, high: Double, i: usize|
                0 < n && i <= n ==> call_requires(*interpolate, (low, high, i, n)),
        ensures
            old(self).wf() ==> final(self).wf(),
            match viewport_outcome(x_min, x_max, y_min, y_max) {
                Err(error) => r == Err::<(), DomainError>(error) && final(self)@ == old(self)@,
                Ok(view) => {
                    &&& r is Ok
                    &&& final(self)@.len() == old(self)@.len()
                    &&& forall|k: int|
                        0 <= k < old(self)@.len() ==> refresh_outcome(
                            #[trigger] old(self)@[k],
                            final(self)@[k],
                            view.x_min,
                            view.x_max,
                            n,
                            *evaluate,
                            *interpolate,
                        )
                },
            },
    {
        refresh_all(&mut self.curves, x_min, x_max, y_min, y_max, n, evaluate, interpolate)
    }
}

} // verus!
