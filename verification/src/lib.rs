//! A verified core for plotting functions of one real variable.
//!
//! A curve is a text such as `sin(x)`. Refreshing it parses the text, binds
//! `x` and samples the function over the visible x-range; the points whose
//! value is finite are kept for drawing.
//!
//! `meval` owns the grammar: it decides whether a text is an expression and
//! which tokens it holds. This crate decides which expressions it accepts,
//! which names they may use, what a sample is, which bounds make a valid
//! viewport, and how the list of curves may change.
//!
//! Real numbers cross the API as IEEE-754 binary64 bit patterns
//! ([`Double`]). The crate classifies and compares them; arithmetic on them is
//! the caller's, handed in as two closures: one evaluates a bound function at
//! a position, the other places position `i` of `n` between the bounds. What
//! the crate proves of a sample holds for whatever the closures return; where
//! each returns one value only for its arguments, a refresh is a function of
//! the text, the domain and the count.

pub mod binder;
pub mod builtins;
pub mod curve;
pub mod domain;
pub mod double;
pub mod expression;
pub mod plot;
pub mod sampler;
pub mod syntax;
pub mod text;

pub use binder::{bind, BindError, BoundFunction};
pub use builtins::Arity;
pub use curve::{Color, CurveRecord};
pub use domain::{validate_domain, validate_viewport, Axis, DomainError, Viewport};
pub use double::Double;
pub use expression::{parse, ParseError, ParsedExpression};
pub use plot::{palette_color, refresh_all, CurveList, ListError};
pub use sampler::{sample, SamplePoint};
pub use syntax::{Symbol, SyntaxFailure};
