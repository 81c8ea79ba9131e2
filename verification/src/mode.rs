//! The parser's entry-point selector.

use vstd::prelude::*;
use crate::token::Tok;

verus! {

/// Which entry point the grammar uses: a whole module, a single interactive
/// statement, or a single expression.
#[derive(Copy, Clone, Debug, PartialEq, Eq, Structural)]
pub enum Mode {
    Module,
    Interactive,
    Expression,
}

/// The synthetic marker token that selects each entry point.
pub open spec fn spec_mode_marker(m: Mode) -> Tok {
    match m {
        Mode::Module => Tok::StartModule,
        Mode::Interactive => Tok::StartInteractive,
        Mode::Expression => Tok::StartExpression,
    }
}

impl Mode {
    /// The marker token injected in front of a token stream so one grammar
    /// can branch on the requested entry point.
    pub fn to_marker(&self) -> (r: Tok)
        ensures
            r == spec_mode_marker(*self),
    {
        match self {
            Mode::Module => Tok::StartModule,
            Mode::Interactive => Tok::StartInteractive,
            Mode::Expression => Tok::StartExpression,
        }
    }
}

} // verus!
