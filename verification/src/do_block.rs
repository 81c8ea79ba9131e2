//! The grammar's intermediate for what follows a statement's colon: either
//! the block's own statements, or a trailing `do:` block expression that
//! block relocation will splice onto the right operand.

use vstd::prelude::*;
use crate::ast::{Expr, Stmt};

verus! {

/// What a grammar action holds while a statement's tail is being reduced:
/// the statements of an ordinary block, or the single block expression of
/// the `do:` extension.
#[derive(Debug)]
pub enum StatementsOrDoBlock {
    Statements(Vec<Stmt>),
    DoBlock(Expr),
}

} // verus!
