//! The mathematical model of rendering one scope.
//!
//! A scope is one sequence of sibling nodes: the document top level, a
//! conditional branch, a loop body, or a function body.  The functions here
//! define, over `Seq<char>`, exactly what rendering a scope produces: the
//! emitted statement text, the collected imports, parameters and generated
//! functions, the two flags, and the duplicate-parameter error, if any.
//! The `*_from` functions walk the siblings from position `i` on, which is
//! the shape the executable loop follows.

use vstd::prelude::*;

use crate::ast::Node;
use crate::ast::Range;
use crate::ast::Visibility;
use crate::text::escaped;
use crate::text::has_visible_text;

verus! {

/// The view of one String as a character sequence.
pub open spec fn strings_view(v: Seq<String>) -> Seq<Seq<char>> {
    v.map_values(|s: String| s@)
}

/// The view of a (name, type) parameter list as character sequences.
pub open spec fn params_view(v: Seq<(String, String)>) -> Seq<(Seq<char>, Seq<char>)> {
    v.map_values(|p: (String, String)| (p.0@, p.1@))
}

/// The names of a parameter list, in declaration order.
pub open spec fn param_names(params: Seq<(Seq<char>, Seq<char>)>) -> Seq<Seq<char>> {
    params.map_values(|p: (Seq<char>, Seq<char>)| p.0)
}

/// The optional `: Type` annotation of a loop item.
pub open spec fn loop_annotation(ann: Option<String>) -> Seq<char> {
    match ann {
        Option::Some(t) => ": "@ + t@,
        Option::None => Seq::empty(),
    }
}

/// The `pub ` prefix of an exported generated function.
pub open spec fn visibility_text(vis: Visibility) -> Seq<char> {
    match vis {
        Visibility::Private => Seq::empty(),
        Visibility::Public => "pub "@,
    }
}

/// A complete generated function: visibility prefix, signature head, a body
/// that starts from an empty builder, runs the body statements and returns
/// the final builder.
pub open spec fn function_text(vis: Visibility, head: Seq<char>, body_lines: Seq<char>) -> Seq<
    char,
> {
    visibility_text(vis) + "fn "@ + head
        + " -> StringBuilder {\n    let builder = string_builder.from_string(\"\")\n"@ + body_lines
        + "\n    builder\n}"@
}

/// The statement text one node contributes to its scope.
pub open spec fn node_lines(node: Node) -> Seq<char>
    decreases node, 0int,
{
    match node {
        Node::Text(text) => "    let builder = string_builder.append(builder, \""@ + escaped(text@)
            + "\")\n"@,
        Node::Expression(code) => "    let builder = string_builder.append(builder, "@ + code@
            + ")\n"@,
        Node::BuilderExpression(code) => "    let builder = string_builder.append_builder(builder, "@
            + code@ + ")\n"@,
        Node::Import(_) => Seq::empty(),
        Node::ParamDeclaration(_, _, _) => Seq::empty(),
        Node::Conditional(cond, then_nodes, else_nodes) => "    let builder = case "@ + cond@
            + " {\n        True -> {\n            "@ + scope_lines_from(then_nodes@, 0)
            + "\n            builder\n        }\n        False -> {\n            "@
            + scope_lines_from(else_nodes@, 0) + "\n            builder\n        }\n}\n"@,
        Node::Loop(item, ann, coll, body) => "    let builder = list.fold("@ + coll@
            + ", builder, fn(builder, "@ + item@ + loop_annotation(ann) + ") {\n        "@
            + scope_lines_from(body@, 0) + "\n        builder\n})\n"@,
        Node::FunctionDefinition(_, _, _, _) => Seq::empty(),
    }
}

/// The statement text of the siblings from position `i` on, in input order.
pub open spec fn scope_lines_from(nodes: Seq<Node>, i: int) -> Seq<char>
    decreases nodes, nodes.len() - i,
{
    if i < 0 || i >= nodes.len() {
        Seq::empty()
    } else {
        node_lines(nodes[i]) + scope_lines_from(nodes, i + 1)
    }
}

/// The statement text of a whole scope.
pub open spec fn scope_lines(nodes: Seq<Node>) -> Seq<char> {
    scope_lines_from(nodes, 0)
}

/// The import paths declared among the siblings from position `i` on, in
/// order of appearance, duplicates preserved.  Imports inside nested scopes
/// do not propagate here.
pub open spec fn scope_imports_from(nodes: Seq<Node>, i: int) -> Seq<Seq<char>>
    decreases nodes.len() - i,
{
    if i < 0 || i >= nodes.len() {
        Seq::empty()
    } else {
        match nodes[i] {
            Node::Import(path) => seq![path@] + scope_imports_from(nodes, i + 1),
            _ => scope_imports_from(nodes, i + 1),
        }
    }
}

/// The import paths of a whole scope.
pub open spec fn scope_imports(nodes: Seq<Node>) -> Seq<Seq<char>> {
    scope_imports_from(nodes, 0)
}

/// The (name, type) parameters declared among the siblings from position
/// `i` on, in declaration order.  Parameters of nested scopes do not
/// propagate here.
pub open spec fn scope_params_from(nodes: Seq<Node>, i: int) -> Seq<(Seq<char>, Seq<char>)>
    decreases nodes.len() - i,
{
    if i < 0 || i >= nodes.len() {
        Seq::empty()
    } else {
        match nodes[i] {
            Node::ParamDeclaration(name, _, tname) => seq![(name@, tname@)]
                + scope_params_from(nodes, i + 1),
            _ => scope_params_from(nodes, i + 1),
        }
    }
}

/// The parameters of a whole scope.
pub open spec fn scope_params(nodes: Seq<Node>) -> Seq<(Seq<char>, Seq<char>)> {
    scope_params_from(nodes, 0)
}

/// The fully rendered named functions defined among the siblings from
/// position `i` on, in definition order.
pub open spec fn scope_functions_from(nodes: Seq<Node>, i: int) -> Seq<Seq<char>>
    decreases nodes.len() - i,
{
    if i < 0 || i >= nodes.len() {
        Seq::empty()
    } else {
        match nodes[i] {
            Node::FunctionDefinition(vis, head, body, _) => seq![
                function_text(vis, head@, scope_lines(body@)),
            ] + scope_functions_from(nodes, i + 1),
            _ => scope_functions_from(nodes, i + 1),
        }
    }
}

/// The generated functions of a whole scope.
pub open spec fn scope_functions(nodes: Seq<Node>) -> Seq<Seq<char>> {
    scope_functions_from(nodes, 0)
}

/// Whether a loop is rendered anywhere inside this node, nested scopes
/// included.
pub open spec fn node_uses_loop(node: Node) -> bool
    decreases node, 0int,
{
    match node {
        Node::Conditional(_, then_nodes, else_nodes) => scope_uses_loop_from(then_nodes@, 0)
            || scope_uses_loop_from(else_nodes@, 0),
        Node::Loop(_, _, _, _) => true,
        Node::FunctionDefinition(_, _, body, _) => scope_uses_loop_from(body@, 0),
        _ => false,
    }
}

/// Whether a loop is rendered anywhere in the siblings from position `i`
/// on, nested scopes included.
pub open spec fn scope_uses_loop_from(nodes: Seq<Node>, i: int) -> bool
    decreases nodes, nodes.len() - i,
{
    if i < 0 || i >= nodes.len() {
        false
    } else {
        node_uses_loop(nodes[i]) || scope_uses_loop_from(nodes, i + 1)
    }
}

/// Whether a loop is rendered anywhere in a whole scope.
pub open spec fn scope_uses_loop(nodes: Seq<Node>) -> bool {
    scope_uses_loop_from(nodes, 0)
}

/// Whether this node, at the top level of a scope, counts as renderable
/// content.  Text counts only when it is not all whitespace; function
/// definitions and imports never count; everything else always counts.
pub open spec fn node_has_content(node: Node) -> bool {
    match node {
        Node::Text(text) => has_visible_text(text@),
        Node::Expression(_) => true,
        Node::BuilderExpression(_) => true,
        Node::Import(_) => false,
        Node::ParamDeclaration(_, _, _) => true,
        Node::Conditional(_, _, _) => true,
        Node::Loop(_, _, _, _) => true,
        Node::FunctionDefinition(_, _, _, _) => false,
    }
}

/// Whether the siblings from position `i` on hold renderable content.
pub open spec fn scope_has_content_from(nodes: Seq<Node>, i: int) -> bool
    decreases nodes.len() - i,
{
    if i < 0 || i >= nodes.len() {
        false
    } else {
        node_has_content(nodes[i]) || scope_has_content_from(nodes, i + 1)
    }
}

/// Whether a whole scope holds renderable content.
pub open spec fn scope_has_content(nodes: Seq<Node>) -> bool {
    scope_has_content_from(nodes, 0)
}

/// The duplicate-parameter error raised inside this node's nested scopes,
/// if any: the then-branch is rendered before the else-branch, so its error
/// wins.
pub open spec fn node_error(node: Node) -> Option<(Seq<char>, Range)>
    decreases node, 0int,
{
    match node {
        Node::Conditional(_, then_nodes, else_nodes) => {
            if scope_error_from(then_nodes@, 0, Seq::empty()) is Some {
                scope_error_from(then_nodes@, 0, Seq::empty())
            } else {
                scope_error_from(else_nodes@, 0, Seq::empty())
            }
        },
        Node::Loop(_, _, _, body) => scope_error_from(body@, 0, Seq::empty()),
        Node::FunctionDefinition(_, _, body, _) => scope_error_from(body@, 0, Seq::empty()),
        _ => Option::None,
    }
}

/// The first duplicate-parameter error among the siblings from position `i`
/// on, given the parameter names `seen` earlier in the same scope.  The
/// error carries the offending name and the source position of the second
/// declaration.
pub open spec fn scope_error_from(nodes: Seq<Node>, i: int, seen: Seq<Seq<char>>) -> Option<
    (Seq<char>, Range),
>
    decreases nodes, nodes.len() - i,
{
    if i < 0 || i >= nodes.len() {
        Option::None
    } else {
        match nodes[i] {
            Node::ParamDeclaration(name, range, _) => {
                if seen.contains(name@) {
                    Option::Some((name@, range))
                } else {
                    scope_error_from(nodes, i + 1, seen.push(name@))
                }
            },
            _ => {
                if node_error(nodes[i]) is Some {
                    node_error(nodes[i])
                } else {
                    scope_error_from(nodes, i + 1, seen)
                }
            },
        }
    }
}

/// The first duplicate-parameter error of a whole scope, if any.
pub open spec fn scope_error(nodes: Seq<Node>) -> Option<(Seq<char>, Range)> {
    scope_error_from(nodes, 0, Seq::empty())
}

/// Everything rendering one scope produces, as one record.
#[verifier::ext_equal]
pub struct ScopeView {
    /// The emitted statement text, in input order.
    pub lines: Seq<char>,
    /// The import paths collected at this scope, in order, not deduplicated.
    pub imports: Seq<Seq<char>>,
    /// The fully rendered named functions, in definition order.
    pub functions: Seq<Seq<char>>,
    /// The declared (name, type) parameters, in declaration order.
    pub params: Seq<(Seq<char>, Seq<char>)>,
    /// Whether a loop is rendered anywhere in or below this scope.
    pub uses_loop: bool,
    /// Whether this scope holds renderable content at its top level.
    pub has_content: bool,
}

/// The complete result of rendering one error-free scope.
pub open spec fn scope_view(nodes: Seq<Node>) -> ScopeView {
    ScopeView {
        lines: scope_lines(nodes),
        imports: scope_imports(nodes),
        functions: scope_functions(nodes),
        params: scope_params(nodes),
        uses_loop: scope_uses_loop(nodes),
        has_content: scope_has_content(nodes),
    }
}

} // verus!
