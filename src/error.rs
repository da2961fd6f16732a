//! Why the body of a recognized macro could not be read.

use vstd::prelude::*;

verus! {

/// The ways in which a recognized macro's body fails its grammar.
#[derive(Clone, Copy, Debug, PartialEq, Eq, Structural)]
pub enum MacroError {
    /// A `cfg_if!` branch does not start with `if`.
    ExpectedIf,
    /// A `cfg_if!` condition is not an attribute `#[...]`.
    BadAttribute,
    /// A branch or arm has no `{...}` block where one is due.
    ExpectedOpenBrace,
    /// A block holds something that is not a sequence of items.
    ExpectedItem,
    /// A `cfg_if!` block is followed by something other than `else`.
    ExpectedElse,
    /// Tokens follow the final unconditional `else` block of a `cfg_if!`.
    TrailingTokens,
    /// A `cfg_match!` arm does not start with `_` or a configuration predicate.
    BadAttrItem,
    /// A `cfg_match!` predicate is not followed by `=>`.
    ExpectedFatArrow,
    /// A `cfg_match!` whose body is a single block, as in expression position.
    ExpressionPosition,
}

impl MacroError {
    /// A short diagnostic for the failure.
    pub fn message(&self) -> (r: &'static str)
        ensures
            *self == MacroError::ExpectedIf ==> r@ == "Expected `if`"@,
            *self == MacroError::BadAttribute ==> r@ == "Failed to parse attributes"@,
            *self == MacroError::ExpectedOpenBrace ==> r@ == "Expected an opening brace"@,
            *self == MacroError::ExpectedItem ==> r@ == "Expected item inside block"@,
            *self == MacroError::ExpectedElse ==> r@ == "Expected `else`"@,
            *self == MacroError::TrailingTokens ==> r@ == "Unexpected tokens after the final `else` block"@,
            *self == MacroError::BadAttrItem ==> r@ == "Failed to parse attr item"@,
            *self == MacroError::ExpectedFatArrow ==> r@ == "Expected a fat arrow"@,
            *self == MacroError::ExpressionPosition ==> r@ == "Expression position cfg_match! not yet supported"@,
    {
        match self {
            MacroError::ExpectedIf => "Expected `if`",
            MacroError::BadAttribute => "Failed to parse attributes",
            MacroError::ExpectedOpenBrace => "Expected an opening brace",
            MacroError::ExpectedItem => "Expected item inside block",
            MacroError::ExpectedElse => "Expected `else`",
            MacroError::TrailingTokens => "Unexpected tokens after the final `else` block",
            MacroError::BadAttrItem => "Failed to parse attr item",
            MacroError::ExpectedFatArrow => "Expected a fat arrow",
            MacroError::ExpressionPosition => "Expression position cfg_match! not yet supported",
        }
    }
}

} // verus!
