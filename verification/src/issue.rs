//! The problems that parsing and semantic analysis can report.

use crate::ast::{CompoundStatementNode, DefinitionNode, FunctionDefinitionNode, VectorDefinitionNode};
use crate::token::TokenPos;
use vstd::prelude::*;
use vstd::string::StringExecFns;

verus! {

/// A problem found in the program being compiled. Every issue is an error:
/// there are no severity levels.
#[derive(Clone, Debug, PartialEq, Eq)]
pub enum Issue {
    /// A closing bracket at `0` has no opening bracket to match.
    BracketNotOpened(TokenPos),
    /// The bracket opened at `0` is never closed.
    BracketNotClosed(TokenPos),
    /// The input produced no tokens at all.
    EmptyTokenStream,
    /// The parser could not derive a syntax tree.
    ParsingError,
    /// `name` is used at `pos` but declared nowhere in scope.
    NameNotDefined { name: String, pos: TokenPos },
    /// `name` is defined at `curr_def_pos` although it was defined before,
    /// at `prev_def_pos` where that is known.
    NameRedefined { name: String, curr_def_pos: TokenPos, prev_def_pos: Option<TokenPos> },
    /// The initializer at `1` of the variable defined by `0` refers to that
    /// variable.
    InitVarWithItself(DefinitionNode, TokenPos),
    /// The definition declares a name of the standard library anew.
    StandardNameRedefined(DefinitionNode),
    /// The vector definition gives neither a size nor initial values.
    VecWithNoSizeAndInits(VectorDefinitionNode),
    /// The size in the vector definition is not a numeric literal.
    VecSizeIsNotANumber(VectorDefinitionNode),
    /// The body of the function is the null statement.
    FnBodyIsNullStatement(FunctionDefinitionNode),
    /// The compound statement holds no statements.
    EmptyCompound(CompoundStatementNode),
}

impl Issue {
    /// The position that the message of the issue starts with, if it has one.
    pub open spec fn position(self) -> Option<TokenPos> {
        match self {
            Issue::BracketNotOpened(pos) => Some(pos),
            Issue::BracketNotClosed(pos) => Some(pos),
            Issue::EmptyTokenStream => None,
            Issue::ParsingError => None,
            Issue::NameNotDefined { pos, .. } => Some(pos),
            Issue::NameRedefined { curr_def_pos, .. } => Some(curr_def_pos),
            Issue::InitVarWithItself(_, pos) => Some(pos),
            Issue::StandardNameRedefined(def) => Some(def.pos),
            Issue::VecWithNoSizeAndInits(vec) => Some(vec.pos),
            Issue::VecSizeIsNotANumber(vec) => Some(vec.pos),
            Issue::FnBodyIsNullStatement(func) => Some(func.pos),
            Issue::EmptyCompound(compound) => Some(compound.pos),
        }
    }

    /// What the message says after the position.
    pub open spec fn description(self) -> Seq<char> {
        match self {
            Issue::BracketNotOpened(_) => "closing bracket has no matching opening bracket"@,
            Issue::BracketNotClosed(_) => "opening bracket is never closed"@,
            Issue::EmptyTokenStream => "The token stream is empty"@,
            Issue::ParsingError => "Failed to parse"@,
            Issue::NameNotDefined { name, .. } => "name `"@ + name@ + "` is not defined"@,
            Issue::NameRedefined { name, prev_def_pos, .. } => "name `"@ + name@
                + "` is redefined"@ + match prev_def_pos {
                Some(prev) => "; previous definition at "@ + prev.text(),
                None => Seq::<char>::empty(),
            },
            Issue::InitVarWithItself(def, _) => "variable defined at "@ + def.pos.text()
                + " is initialized with itself"@,
            Issue::StandardNameRedefined(_) => "definition redefines a standard library name"@,
            Issue::VecWithNoSizeAndInits(_) =>
                "vector definition has neither a size nor initial values"@,
            Issue::VecSizeIsNotANumber(_) => "vector size is not a number"@,
            Issue::FnBodyIsNullStatement(_) => "function body is a null statement"@,
            Issue::EmptyCompound(_) => "compound statement is empty"@,
        }
    }

    /// The whole message: the position, where the issue has one, a colon and
    /// a space, then the description.
    pub open spec fn message_text(self) -> Seq<char> {
        match self.position() {
            Some(pos) => pos.text() + ": "@ + self.description(),
            None => self.description(),
        }
    }

    /// Every issue has a message: none is empty, and where the issue has a
    /// position the message begins with it.
    pub proof fn lemma_message_is_complete(self)
        ensures
            self.description().len() > 0,
            self.message_text().len() >= self.description().len(),
            self.position() matches Some(pos) ==> pos.text().is_prefix_of(self.message_text()),
    {
        reveal_strlit("closing bracket has no matching opening bracket");
        reveal_strlit("opening bracket is never closed");
        reveal_strlit("The token stream is empty");
        reveal_strlit("Failed to parse");
        reveal_strlit("name `");
        reveal_strlit("variable defined at ");
        reveal_strlit("definition redefines a standard library name");
        reveal_strlit("vector definition has neither a size nor initial values");
        reveal_strlit("vector size is not a number");
        reveal_strlit("function body is a null statement");
        reveal_strlit("compound statement is empty");
    }

    /// Renders the issue as a message for the user. Every issue has one.
    pub fn message(&self) -> (s: String)
        ensures
            s@ == self.message_text(),
    {
        let mut s = String::new();
        match self {
            Issue::BracketNotOpened(pos) => {
                pos.append_to(&mut s);
                s.append(": ");
                s.append("closing bracket has no matching opening bracket");
            },
            Issue::BracketNotClosed(pos) => {
                pos.append_to(&mut s);
                s.append(": ");
                s.append("opening bracket is never closed");
            },
            Issue::EmptyTokenStream => {
                s.append("The token stream is empty");
            },
            Issue::ParsingError => {
                s.append("Failed to parse");
            },
            Issue::NameNotDefined { name, pos } => {
                pos.append_to(&mut s);
                s.append(": ");
                s.append("name `");
                s.append(name.as_str());
                s.append("` is not defined");
            },
            Issue::NameRedefined { name, curr_def_pos, prev_def_pos } => {
                curr_def_pos.append_to(&mut s);
                s.append(": ");
                s.append("name `");
                s.append(name.as_str());
                s.append("` is redefined");
                match prev_def_pos {
                    Some(prev) => {
                        s.append("; previous definition at ");
                        prev.append_to(&mut s);
                    },
                    None => {},
                }
            },
            Issue::InitVarWithItself(def, pos) => {
                pos.append_to(&mut s);
                s.append(": ");
                s.append("variable defined at ");
                def.pos.append_to(&mut s);
                s.append(" is initialized with itself");
            },
            Issue::StandardNameRedefined(def) => {
                def.pos.append_to(&mut s);
                s.append(": ");
                s.append("definition redefines a standard library name");
            },
            Issue::VecWithNoSizeAndInits(vec) => {
                vec.pos.append_to(&mut s);
                s.append(": ");
                s.append("vector definition has neither a size nor initial values");
            },
            Issue::VecSizeIsNotANumber(vec) => {
                vec.pos.append_to(&mut s);
                s.append(": ");
                s.append("vector size is not a number");
            },
            Issue::FnBodyIsNullStatement(func) => {
                func.pos.append_to(&mut s);
                s.append(": ");
                s.append("function body is a null statement");
            },
            Issue::EmptyCompound(compound) => {
                compound.pos.append_to(&mut s);
                s.append(": ");
                s.append("compound statement is empty");
            },
        }
        assert(s@ =~= self.message_text());
        s
    }
}

} // verus!
