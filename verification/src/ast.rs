//! Handles to the syntax-tree nodes that a diagnostic can be about.
//!
//! The diagnostics neither build nor inspect the parser's nodes: a handle
//! keeps what is needed to point at the node in the source text.

use crate::token::TokenPos;
use vstd::prelude::*;

verus! {

/// A definition of a variable, a vector or a function.
#[derive(Clone, Copy, Debug, PartialEq, Eq, Structural)]
pub struct DefinitionNode {
    pub pos: TokenPos,
}

/// A definition of a vector.
#[derive(Clone, Copy, Debug, PartialEq, Eq, Structural)]
pub struct VectorDefinitionNode {
    pub pos: TokenPos,
}

/// A definition of a function.
#[derive(Clone, Copy, Debug, PartialEq, Eq, Structural)]
pub struct FunctionDefinitionNode {
    pub pos: TokenPos,
}

/// A compound statement: a brace-enclosed list of statements.
#[derive(Clone, Copy, Debug, PartialEq, Eq, Structural)]
pub struct CompoundStatementNode {
    pub pos: TokenPos,
}

} // verus!
