//! The constants and functions that an expression may name.
//!
//! These are the names that `meval`'s built-in context defines, with the
//! number of arguments that each function takes.

use vstd::prelude::*;
use crate::text::same_text;

verus! {

/// How many arguments a function takes.
#[derive(Clone, Copy, Debug, PartialEq, Eq, Structural)]
pub enum Arity {
    /// Exactly one.
    One,
    /// Exactly two.
    Two,
    /// One or more.
    AtLeastOne,
}

impl Arity {
    /// Whether a call with `count` arguments is in order.
    pub open spec fn spec_admits(self, count: usize) -> bool {
        match self {
            Arity::One => count == 1,
            Arity::Two => count == 2,
            Arity::AtLeastOne => count >= 1,
        }
    }

    /// Whether a call with `count` arguments is in order.
    #[verifier::when_used_as_spec(spec_admits)]
    pub fn admits(self, count: usize) -> (r: bool)
        ensures
            r == self.spec_admits(count),
    {
        match self {
            Arity::One => count == 1,
            Arity::Two => count == 2,
            Arity::AtLeastOne => count >= 1,
        }
    }
}

/// The names of the constants: `pi` and `e`.
pub open spec fn is_constant(name: Seq<char>) -> bool {
    name == "pi"@ || name == "e"@
}

/// The names of the functions of one argument.
pub open spec fn is_unary_function(name: Seq<char>) -> bool {
    ||| name == "sqrt"@
    ||| name == "exp"@
    ||| name == "ln"@
    ||| name == "abs"@
    ||| name == "sin"@
    ||| name == "cos"@
    ||| name == "tan"@
    ||| name == "asin"@
    ||| name == "acos"@
    ||| name == "atan"@
    ||| name == "sinh"@
    ||| name == "cosh"@
    ||| name == "tanh"@
    ||| name == "asinh"@
    ||| name == "acosh"@
    ||| name == "atanh"@
    ||| name == "floor"@
    ||| name == "ceil"@
    ||| name == "round"@
    ||| name == "signum"@
}

/// The arity of a function, or `None` where no function has that name.
pub open spec fn function_arity(name: Seq<char>) -> Option<Arity> {
    if is_unary_function(name) {
        Some(Arity::One)
    } else if name == "atan2"@ {
        Some(Arity::Two)
    } else if name == "max"@ || name == "min"@ {
        Some(Arity::AtLeastOne)
    } else {
        None
    }
}

/// Whether `name` is a constant.
pub fn lookup_constant(name: &str) -> (r: bool)
    ensures
        r == is_constant(name@),
{
    same_text(name, "pi") || same_text(name, "e")
}

fn lookup_unary(name: &str) -> (r: bool)
    ensures
        r == is_unary_function(name@),
{
    same_text(name, "sqrt") || same_text(name, "exp") || same_text(name, "ln") || same_text(
        name,
        "abs",
    ) || same_text(name, "sin") || same_text(name, "cos") || same_text(name, "tan") || same_text(
        name,
        "asin",
    ) || same_text(name, "acos") || same_text(name, "atan") || same_text(name, "sinh")
        || same_text(name, "cosh") || same_text(name, "tanh") || same_text(name, "asinh")
        || same_text(name, "acosh") || same_text(name, "atanh") || same_text(name, "floor")
        || same_text(name, "ceil") || same_text(name, "round") || same_text(name, "signum")
}

/// The arity of the function called `name`, if there is one.
pub fn lookup_function(name: &str) -> (r: Option<Arity>)
    ensures
        r == function_arity(name@),
{
    if lookup_unary(name) {
        Some(Arity::One)
    } else if same_text(name, "atan2") {
        Some(Arity::Two)
    } else if same_text(name, "max") || same_text(name, "min") {
        Some(Arity::AtLeastOne)
    } else {
        None
    }
}

} // verus!
