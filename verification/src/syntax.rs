//! The boundary with `meval`, which owns the grammar of expressions.
//!
//! `meval` turns a text into a sequence of tokens in reverse Polish notation.
//! What this crate reads of such a sequence is the shape of each token: its
//! kind, the name of a variable or a function, and the number of arguments a
//! function was applied to. Numbers and operators stay inside the `meval`
//! expression, which alone evaluates them.

use vstd::prelude::*;
use crate::text::blank;

verus! {

/// `meval::Expr`, a parsed expression. Nothing is known of a value of it but
/// what [`expression_symbols`] says.
#[verifier::external_type_specification]
#[verifier::external_body]
pub struct ExExpr(meval::Expr);

/// `meval::tokenizer::Token`, the item of the slice that a `meval::Expr`
/// dereferences to. No value of it is held or read outside [`export_symbols`].
#[verifier::external_type_specification]
#[verifier::external_body]
pub struct ExToken(meval::tokenizer::Token);

/// The shape of one token of a parsed expression.
#[derive(Clone, Debug, PartialEq, Eq)]
pub enum Symbol {
    /// A numeric literal.
    Number,
    /// A reference to a variable or a constant, by name.
    Variable(String),
    /// A unary operator; it takes one operand.
    Unary,
    /// A binary operator; it takes two operands.
    Binary,
    /// A function applied to the given number of arguments; `None` where
    /// the arguments were not counted.
    Function(String, Option<usize>),
    /// A parenthesis or a comma, which reverse Polish notation has no use for.
    Delimiter,
}

/// A [`Symbol`] with its names as sequences of characters.
pub enum SymbolView {
    Number,
    Variable(Seq<char>),
    Unary,
    Binary,
    Function(Seq<char>, Option<usize>),
    Delimiter,
}

impl View for Symbol {
    type V = SymbolView;

    open spec fn view(&self) -> SymbolView {
        match self {
            Symbol::Number => SymbolView::Number,
            Symbol::Variable(name) => SymbolView::Variable(name@),
            Symbol::Unary => SymbolView::Unary,
            Symbol::Binary => SymbolView::Binary,
            Symbol::Function(name, count) => SymbolView::Function(name@, *count),
            Symbol::Delimiter => SymbolView::Delimiter,
        }
    }
}

impl DeepView for Symbol {
    type V = SymbolView;

    open spec fn deep_view(&self) -> SymbolView {
        self@
    }
}

/// Why `meval` refused a text.
#[derive(Clone, Debug, PartialEq, Eq)]
pub struct SyntaxFailure {
    /// What `meval` says of the failure.
    pub message: String,
    /// The byte at which an unexpected token starts, where that is the failure.
    pub position: Option<usize>,
}

/// A [`SyntaxFailure`] with its message as a sequence of characters.
pub struct SyntaxFailureView {
    pub message: Seq<char>,
    pub position: Option<usize>,
}

impl View for SyntaxFailure {
    type V = SyntaxFailureView;

    open spec fn view(&self) -> SyntaxFailureView {
        SyntaxFailureView { message: self.message@, position: self.position }
    }
}

/// The shapes of the tokens that a `meval` expression holds, in its own
/// (reverse Polish) order.
pub uninterp spec fn expression_symbols(expr: meval::Expr) -> Seq<SymbolView>;

/// What `meval` makes of a text: the shapes of the tokens of the expression
/// it parses, or its failure.
pub uninterp spec fn meval_syntax(text: Seq<char>) -> Result<Seq<SymbolView>, SyntaxFailureView>;

/// `<meval::Expr as FromStr>::from_str`, reached through `str::parse`.
///
/// Parsing is a function of the text alone, so its outcome has a name,
/// [`meval_syntax`]: the tokens of the expression returned are the ones named
/// for the text, and a failure is the one named for it. The failure is given
/// as the text that `meval` displays for it, with the byte offset that an
/// `UnexpectedToken` error carries. On a text that holds spaces only, and at
/// least one, `meval`'s tokenizer panics; such a text is kept out.
#[verifier::external_body]
pub(crate) fn read_expression(text: &str) -> (r: Result<meval::Expr, SyntaxFailure>)
    requires
        !blank(text@),
    ensures
        match r {
            Ok(expr) => meval_syntax(text@) == Ok::<Seq<SymbolView>, SyntaxFailureView>(
                expression_symbols(expr),
            ),
            Err(failure) => meval_syntax(text@) == Err::<Seq<SymbolView>, SyntaxFailureView>(
                failure@,
            ),
        },
{
    match text.parse::<meval::Expr>() {
        Ok(expr) => Ok(expr),
        Err(error) => Err(SyntaxFailure {
            message: error.to_string(),
            position: match error {
                meval::Error::ParseError(meval::ParseError::UnexpectedToken(at)) => Some(at),
                _ => None,
            },
        }),
    }
}

/// `<meval::Expr as Deref>::deref`: the slice of tokens that the expression
/// holds, each token reduced to its shape. What comes out is what
/// [`expression_symbols`] names for the expression.
#[verifier::external_body]
pub(crate) fn export_symbols(expr: &meval::Expr) -> (symbols: Vec<Symbol>)
    ensures
        symbols.deep_view() == expression_symbols(*expr),
{
    expr.iter().map(|token| match token {
        meval::tokenizer::Token::Number(_) => Symbol::Number,
        meval::tokenizer::Token::Var(name) => Symbol::Variable(name.clone()),
        meval::tokenizer::Token::Unary(_) => Symbol::Unary,
        meval::tokenizer::Token::Binary(_) => Symbol::Binary,
        meval::tokenizer::Token::Func(name, count) => Symbol::Function(name.clone(), *count),
        _ => Symbol::Delimiter,
    }).collect()
}

} // verus!
