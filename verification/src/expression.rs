//! Parsing: from a text to an expression that can be bound.
//!
//! `meval` decides whether a text is an expression and which tokens it holds
//! (see [`crate::syntax`]). An expression is accepted when its tokens form one
//! well-formed term in reverse Polish notation and every function in it is a
//! known one, applied to a number of arguments that it takes.

use vstd::prelude::*;
use vstd::string::StringExecFns;
use crate::builtins::{function_arity, lookup_function, Arity};
use crate::syntax::{
    export_symbols, expression_symbols, meval_syntax, read_expression, Symbol, SymbolView,
    SyntaxFailure, SyntaxFailureView,
};
use crate::text::{blank, is_blank};

verus! {

/// Why a text is no expression.
#[derive(Clone, Debug, PartialEq, Eq)]
pub enum ParseError {
    /// The text is empty or holds only spaces.
    Empty,
    /// The text does not follow the grammar.
    Syntax(SyntaxFailure),
    /// The tokens do not form one term.
    Malformed,
    /// A function that is not known.
    UnknownFunction { name: String },
    /// A known function, applied to a number of arguments that it does not take.
    ArityMismatch { name: String, expected: Arity },
}

/// A [`ParseError`] with its texts as sequences of characters.
pub enum ParseErrorView {
    Empty,
    Syntax(SyntaxFailureView),
    Malformed,
    UnknownFunction { name: Seq<char> },
    ArityMismatch { name: Seq<char>, expected: Arity },
}

impl View for ParseError {
    type V = ParseErrorView;

    open spec fn view(&self) -> ParseErrorView {
        match self {
            ParseError::Empty => ParseErrorView::Empty,
            ParseError::Syntax(failure) => ParseErrorView::Syntax(failure@),
            ParseError::Malformed => ParseErrorView::Malformed,
            ParseError::UnknownFunction { name } => ParseErrorView::UnknownFunction { name: name@ },
            ParseError::ArityMismatch { name, expected } => ParseErrorView::ArityMismatch {
                name: name@,
                expected: *expected,
            },
        }
    }
}

/// What is wrong with a number of arguments, in words.
pub open spec fn arity_text(expected: Arity) -> Seq<char> {
    match expected {
        Arity::One => "Expected 1 arguments"@,
        Arity::Two => "Expected 2 arguments"@,
        Arity::AtLeastOne => "Too few arguments"@,
    }
}

impl ParseErrorView {
    /// The message shown for the error.
    pub open spec fn message(self) -> Seq<char> {
        match self {
            ParseErrorView::Empty => "Parse error: empty expression"@,
            ParseErrorView::Syntax(failure) => "Parse error: "@ + failure.message,
            ParseErrorView::Malformed => "Parse error: malformed expression"@,
            ParseErrorView::UnknownFunction { name } => "Parse error: function `"@ + name
                + "`: Unknown function"@,
            ParseErrorView::ArityMismatch { name, expected } => "Parse error: function `"@ + name
                + "`: "@ + arity_text(expected),
        }
    }

    /// The byte of the text at which the error was found, where that is known.
    pub open spec fn position(self) -> Option<usize> {
        match self {
            ParseErrorView::Syntax(failure) => failure.position,
            _ => None,
        }
    }
}

impl ParseError {
    /// The message shown for the error.
    pub fn message(&self) -> (text: String)
        ensures
            text@ == self@.message(),
    {
        match self {
            ParseError::Empty => "Parse error: empty expression".to_owned(),
            ParseError::Syntax(failure) => {
                let mut text = "Parse error: ".to_owned();
                text.append(failure.message.as_str());
                text
            },
            ParseError::Malformed => "Parse error: malformed expression".to_owned(),
            ParseError::UnknownFunction { name } => {
                let mut text = "Parse error: function `".to_owned();
                text.append(name.as_str());
                text.append("`: Unknown function");
                text
            },
            ParseError::ArityMismatch { name, expected } => {
                let mut text = "Parse error: function `".to_owned();
                text.append(name.as_str());
                text.append("`: ");
                match expected {
                    Arity::One => text.append("Expected 1 arguments"),
                    Arity::Two => text.append("Expected 2 arguments"),
                    Arity::AtLeastOne => text.append("Too few arguments"),
                }
                text
            },
        }
    }

    /// The byte of the text at which the error was found, where that is known.
    pub fn position(&self) -> (at: Option<usize>)
        ensures
            at == self@.position(),
    {
        match self {
            ParseError::Syntax(failure) => failure.position,
            _ => None,
        }
    }
}

/// How many operands a token takes from the stack before it leaves its one
/// result there; `None` for what is no token of reverse Polish notation.
pub open spec fn operands_taken(symbol: SymbolView) -> Option<usize> {
    match symbol {
        SymbolView::Number => Some(0usize),
        SymbolView::Variable(_) => Some(0usize),
        SymbolView::Unary => Some(1usize),
        SymbolView::Binary => Some(2usize),
        SymbolView::Function(_, Some(count)) => Some(count),
        SymbolView::Function(_, None) => None,
        SymbolView::Delimiter => None,
    }
}

/// The number of values on the stack after the first `count` tokens, or `None`
/// where one of them finds too few operands or is no token.
pub open spec fn depth_after(symbols: Seq<SymbolView>, count: nat) -> Option<nat>
    decreases count,
{
    if count == 0 {
        Some(0nat)
    } else {
        match (depth_after(symbols, (count - 1) as nat), operands_taken(symbols[count - 1])) {
            (Some(depth), Some(taken)) => if taken <= depth {
                Some((depth - taken + 1) as nat)
            } else {
                None
            },
            _ => None,
        }
    }
}

/// The tokens form one term: read from left to right, each finds its operands
/// and in the end one value is left.
pub open spec fn well_formed(symbols: Seq<SymbolView>) -> bool {
    depth_after(symbols, symbols.len()) == Some(1nat)
}

/// What is wrong with a token, if it applies a function.
pub open spec fn function_fault(symbol: SymbolView) -> Option<ParseErrorView> {
    match symbol {
        SymbolView::Function(name, count) => match function_arity(name) {
            None => Some(ParseErrorView::UnknownFunction { name }),
            Some(expected) => if count is Some && expected.admits(count->0) {
                None
            } else {
                Some(ParseErrorView::ArityMismatch { name, expected })
            },
        },
        _ => None,
    }
}

/// The fault of the first faulty token at or after `from`.
pub open spec fn first_function_fault(symbols: Seq<SymbolView>, from: int) -> Option<
    ParseErrorView,
>
    decreases symbols.len() - from,
{
    if from < 0 || from >= symbols.len() {
        None
    } else {
        match function_fault(symbols[from]) {
            Some(fault) => Some(fault),
            None => first_function_fault(symbols, from + 1),
        }
    }
}

/// Why a sequence of tokens is not accepted, if it is not.
pub open spec fn symbols_fault(symbols: Seq<SymbolView>) -> Option<ParseErrorView> {
    if !well_formed(symbols) {
        Some(ParseErrorView::Malformed)
    } else {
        first_function_fault(symbols, 0)
    }
}

/// What parsing a text gives: the tokens of the accepted expression, or the
/// error.
pub open spec fn parse_outcome(text: Seq<char>) -> Result<Seq<SymbolView>, ParseErrorView> {
    if blank(text) {
        Err(ParseErrorView::Empty)
    } else {
        match meval_syntax(text) {
            Err(failure) => Err(ParseErrorView::Syntax(failure)),
            Ok(symbols) => match symbols_fault(symbols) {
                Some(fault) => Err(fault),
                None => Ok(symbols),
            },
        }
    }
}

/// Whether the tokens form one term.
pub fn check_structure(symbols: &Vec<Symbol>) -> (r: bool)
    ensures
        r == well_formed(symbols.deep_view()),
{
    let ghost view = symbols.deep_view();
    let mut depth: usize = 0;
    let mut i: usize = 0;
    while i < symbols.len()
        invariant
            i <= symbols.len(),
            view == symbols.deep_view(),
            view.len() == symbols.len(),
            depth <= i,
            depth_after(view, i as nat) == Some(depth as nat),
        decreases symbols.len() - i,
    {
        assert(view[i as int] == symbols[i as int]@);
        let taken: usize = match &symbols[i] {
            Symbol::Number => 0,
            Symbol::Variable(_) => 0,
            Symbol::Unary => 1,
            Symbol::Binary => 2,
            Symbol::Function(_, Some(count)) => *count,
            _ => {
                proof {
                    lemma_depth_stays_none(view, (i + 1) as nat, view.len());
                }
                return false;
            },
        };
        if taken > depth {
            proof {
                lemma_depth_stays_none(view, (i + 1) as nat, view.len());
            }
            return false;
        }
        depth = depth - taken + 1;
        i += 1;
    }
    depth == 1
}

/// Once a token has failed, no longer prefix succeeds.
pub proof fn lemma_depth_stays_none(symbols: Seq<SymbolView>, failed: nat, count: nat)
    requires
        depth_after(symbols, failed) is None,
        failed <= count,
    ensures
        depth_after(symbols, count) is None,
    decreases count,
{
    if failed < count {
        lemma_depth_stays_none(symbols, failed, (count - 1) as nat);
    }
}

/// The first function that is unknown or applied to a wrong number of
/// arguments, as an error; `Ok` where there is none.
pub fn check_functions(symbols: &Vec<Symbol>) -> (r: Result<(), ParseError>)
    ensures
        match r {
            Ok(_) => first_function_fault(symbols.deep_view(), 0) is None,
            Err(error) => first_function_fault(symbols.deep_view(), 0) == Some(error@),
        },
{
    let ghost view = symbols.deep_view();
    let mut i: usize = 0;
    while i < symbols.len()
        invariant
            i <= symbols.len(),
            view == symbols.deep_view(),
            view.len() == symbols.len(),
            first_function_fault(view, 0) == first_function_fault(view, i as int),
        decreases symbols.len() - i,
    {
        assert(view[i as int] == symbols[i as int]@);
        match &symbols[i] {
            Symbol::Function(name, count) => {
                match lookup_function(name.as_str()) {
                    None => {
                        return Err(ParseError::UnknownFunction { name: name.clone() });
                    },
                    Some(expected) => {
                        let fits = match count {
                            Some(found) => expected.admits(*found),
                            None => false,
                        };
                        if !fits {
                            return Err(
                                ParseError::ArityMismatch { name: name.clone(), expected },
                            );
                        }
                    },
                }
            },
            _ => {},
        }
        i += 1;
    }
    Ok(())
}

/// Whether a sequence of tokens is accepted as an expression.
pub fn check_symbols(symbols: &Vec<Symbol>) -> (r: Result<(), ParseError>)
    ensures
        match r {
            Ok(_) => symbols_fault(symbols.deep_view()) is None,
            Err(error) => symbols_fault(symbols.deep_view()) == Some(error@),
        },
{
    if !check_structure(symbols) {
        Err(ParseError::Malformed)
    } else {
        check_functions(symbols)
    }
}

/// An expression that was parsed and accepted.
#[derive(Debug)]
pub struct ParsedExpression {
    source: String,
    expression: meval::Expr,
    symbols: Vec<Symbol>,
}

/// What a [`ParsedExpression`] stands for: the text it was parsed from and the
/// shapes of its tokens, in reverse Polish notation.
pub struct ExpressionView {
    pub source: Seq<char>,
    pub symbols: Seq<SymbolView>,
}

impl View for ParsedExpression {
    type V = ExpressionView;

    closed spec fn view(&self) -> ExpressionView {
        ExpressionView { source: self.source@, symbols: self.symbols.deep_view() }
    }
}

impl ParsedExpression {
    #[verifier::type_invariant]
    spec fn accepted(self) -> bool {
        &&& parse_outcome(self.source@) == Ok::<Seq<SymbolView>, ParseErrorView>(
            self.symbols.deep_view(),
        )
        &&& expression_symbols(self.expression) == self.symbols.deep_view()
    }

    /// The text that was parsed. Parsing it again gives this expression.
    pub fn source(&self) -> (text: &str)
        ensures
            text@ == self@.source,
            parse_outcome(text@) == Ok::<Seq<SymbolView>, ParseErrorView>(self@.symbols),
    {
        proof {
            use_type_invariant(self);
        }
        self.source.as_str()
    }

    /// The shapes of the tokens.
    pub fn symbols(&self) -> (symbols: &Vec<Symbol>)
        ensures
            symbols.deep_view() == self@.symbols,
    {
        &self.symbols
    }

    /// The expression as `meval` holds it, for evaluation.
    pub fn expression(&self) -> (expression: &meval::Expr)
        ensures
            expression_symbols(*expression) == self@.symbols,
    {
        proof {
            use_type_invariant(self);
        }
        &self.expression
    }
}

/// Parses a text.
///
/// A blank text is refused as empty. Any other text goes to `meval`, whose
/// failure is passed on; the tokens of its expression must then form one term
/// and apply known functions to as many arguments as they take.
pub fn parse(text: &str) -> (r: Result<ParsedExpression, ParseError>)
    ensures
        match r {
            Ok(parsed) => {
                &&& parsed@.source == text@
                &&& parse_outcome(text@) == Ok::<Seq<SymbolView>, ParseErrorView>(parsed@.symbols)
            },
            Err(error) => parse_outcome(text@) == Err::<Seq<SymbolView>, ParseErrorView>(error@),
        },
{
    if is_blank(text) {
        return Err(ParseError::Empty);
    }
    match read_expression(text) {
        Err(failure) => Err(ParseError::Syntax(failure)),
        Ok(expression) => {
            let symbols = export_symbols(&expression);
            match check_symbols(&symbols) {
                Err(error) => Err(error),
                Ok(_) => Ok(ParsedExpression { source: text.to_owned(), expression, symbols }),
            }
        },
    }
}

} // verus!
