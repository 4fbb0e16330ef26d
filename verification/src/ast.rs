//! The node tree handed over by the parser.

use vstd::prelude::*;

verus! {

/// A span of positions in the template source, carried for diagnostics.
#[derive(Clone, Copy, Debug, PartialEq, Eq, Structural)]
pub struct Range {
    pub start: usize,
    pub end: usize,
}

/// Whether a generated function is exported from the generated module.
#[derive(Clone, Copy, Debug, PartialEq, Eq, Structural)]
pub enum Visibility {
    Private,
    Public,
}

/// One element of the parsed template tree.
///
/// `ParamDeclaration` and `Import` nodes occur only among the top-level
/// siblings of the document or of a `FunctionDefinition` body; the parser
/// guarantees this, and the renderer silently drops them elsewhere.
#[derive(Debug)]
pub enum Node {
    /// Literal output text.
    Text(String),
    /// A Gleam expression whose string value is appended to the output.
    Expression(String),
    /// A Gleam expression that is already a `StringBuilder` and is merged,
    /// not stringified.
    BuilderExpression(String),
    /// A module import the generated file must contain.
    Import(String),
    /// A labeled input parameter of the generated render functions:
    /// name, source position, type name.
    ParamDeclaration(String, Range, String),
    /// A two-armed branch: condition, then-branch, else-branch.
    Conditional(String, Vec<Node>, Vec<Node>),
    /// A fold over a collection: item name, optional item type annotation,
    /// collection expression, body.
    Loop(String, Option<String>, String, Vec<Node>),
    /// A named template function: visibility, signature head, body,
    /// source position.
    FunctionDefinition(Visibility, String, Vec<Node>, Range),
}

} // verus!
