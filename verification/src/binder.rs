//! Binding: an expression becomes a function of one variable.
//!
//! Every name that the expression refers to must be the variable or a
//! constant. The function itself is then evaluated by `meval`, outside this
//! crate; a [`BoundFunction`] is the proof that this can be done.

use vstd::prelude::*;
use vstd::string::StringExecFns;
use crate::builtins::{is_constant, lookup_constant};
use crate::expression::{ExpressionView, ParsedExpression};
use crate::syntax::{Symbol, SymbolView};
use crate::text::same_text;

verus! {

/// Why an expression is no function of the variable.
#[derive(Clone, Debug, PartialEq, Eq)]
pub enum BindError {
    /// A name that is neither the variable nor a constant.
    UnknownSymbol { name: String },
}

/// A [`BindError`] with its name as a sequence of characters.
pub enum BindErrorView {
    UnknownSymbol { name: Seq<char> },
}

impl View for BindError {
    type V = BindErrorView;

    open spec fn view(&self) -> BindErrorView {
        match self {
            BindError::UnknownSymbol { name } => BindErrorView::UnknownSymbol { name: name@ },
        }
    }
}

impl BindErrorView {
    /// The message shown for the error.
    pub open spec fn message(self) -> Seq<char> {
        match self {
            BindErrorView::UnknownSymbol { name } =>
                "Binding error: Evaluation error: unknown variable `"@ + name + "`."@,
        }
    }
}

impl BindError {
    /// The message shown for the error.
    pub fn message(&self) -> (text: String)
        ensures
            text@ == self@.message(),
    {
        match self {
            BindError::UnknownSymbol { name } => {
                let mut text = "Binding error: Evaluation error: unknown variable `".to_owned();
                text.append(name.as_str());
                text.append("`.");
                text
            },
        }
    }
}

/// Whether a token is settled once `variable` is bound: it refers to no name,
/// to the variable or to a constant.
pub open spec fn resolved(symbol: SymbolView, variable: Seq<char>) -> bool {
    match symbol {
        SymbolView::Variable(name) => name == variable || is_constant(name),
        _ => true,
    }
}

/// The first token at or after `from` that is not settled, as an error.
pub open spec fn first_unresolved(symbols: Seq<SymbolView>, variable: Seq<char>, from: int) -> Option<
    BindErrorView,
>
    decreases symbols.len() - from,
{
    if from < 0 || from >= symbols.len() {
        None
    } else {
        match symbols[from] {
            SymbolView::Variable(name) if !resolved(symbols[from], variable) => Some(
                BindErrorView::UnknownSymbol { name },
            ),
            _ => first_unresolved(symbols, variable, from + 1),
        }
    }
}

/// What binding gives on the tokens of an expression: the error, if there is
/// one.
pub open spec fn bind_fault(symbols: Seq<SymbolView>, variable: Seq<char>) -> Option<BindErrorView> {
    first_unresolved(symbols, variable, 0)
}

/// The first name among the tokens that is neither `variable` nor a constant,
/// as an error; `Ok` where there is none.
pub fn check_names(symbols: &Vec<Symbol>, variable: &str) -> (r: Result<(), BindError>)
    ensures
        match r {
            Ok(_) => bind_fault(symbols.deep_view(), variable@) is None,
            Err(error) => bind_fault(symbols.deep_view(), variable@) == Some(error@),
        },
{
    let ghost view = symbols.deep_view();
    let mut i: usize = 0;
    while i < symbols.len()
        invariant
            i <= symbols.len(),
            view == symbols.deep_view(),
            view.len() == symbols.len(),
            bind_fault(view, variable@) == first_unresolved(view, variable@, i as int),
        decreases symbols.len() - i,
    {
        assert(view[i as int] == symbols[i as int]@);
        match &symbols[i] {
            Symbol::Variable(name) => {
                if !same_text(name.as_str(), variable) && !lookup_constant(name.as_str()) {
                    return Err(BindError::UnknownSymbol { name: name.clone() });
                }
            },
            _ => {},
        }
        i += 1;
    }
    Ok(())
}

/// An expression with its variable bound: a function of one real variable.
#[derive(Debug)]
pub struct BoundFunction {
    expression: ParsedExpression,
    variable: String,
}

/// What a [`BoundFunction`] stands for: its expression and the name of its
/// variable.
pub struct BoundView {
    pub expression: ExpressionView,
    pub variable: Seq<char>,
}

impl View for BoundFunction {
    type V = BoundView;

    closed spec fn view(&self) -> BoundView {
        BoundView { expression: self.expression@, variable: self.variable@ }
    }
}

impl BoundFunction {
    #[verifier::type_invariant]
    spec fn closed_over(self) -> bool {
        bind_fault(self.expression@.symbols, self.variable@) is None
    }

    /// The expression.
    pub fn expression(&self) -> (expression: &ParsedExpression)
        ensures
            expression@ == self@.expression,
    {
        &self.expression
    }

    /// The name of the variable. No other name is left open in the expression.
    pub fn variable(&self) -> (variable: &str)
        ensures
            variable@ == self@.variable,
            bind_fault(self@.expression.symbols, variable@) is None,
    {
        proof {
            use_type_invariant(self);
        }
        self.variable.as_str()
    }
}

/// Binds `variable` in an expression.
///
/// This succeeds when every name in the expression is `variable` or a
/// constant; otherwise the error holds the first name that is neither.
pub fn bind(ast: ParsedExpression, variable: &str) -> (r: Result<BoundFunction, BindError>)
    ensures
        match r {
            Ok(function) => {
                &&& function@.expression == ast@
                &&& function@.variable == variable@
                &&& bind_fault(ast@.symbols, variable@) is None
            },
            Err(error) => bind_fault(ast@.symbols, variable@) == Some(error@),
        },
{
    match check_names(ast.symbols(), variable) {
        Err(error) => Err(error),
        Ok(_) => Ok(BoundFunction { expression: ast, variable: variable.to_owned() }),
    }
}

} // verus!
