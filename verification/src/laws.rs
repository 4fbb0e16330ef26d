//! The laws the renderer obeys, stated over the specification model and
//! proved once and for all.

use vstd::prelude::*;

use crate::ast::Node;
use crate::renderer::file_header;
use crate::renderer::functions_join_text;
use crate::renderer::import_lines_text;
use crate::renderer::render_fns_text;
use crate::renderer::rendered_output;
use crate::scope::node_error;
use crate::scope::node_has_content;
use crate::scope::node_lines;
use crate::scope::scope_error;
use crate::scope::scope_error_from;
use crate::scope::scope_functions;
use crate::scope::scope_has_content;
use crate::scope::scope_has_content_from;
use crate::scope::scope_imports;
use crate::scope::scope_lines;
use crate::scope::scope_lines_from;
use crate::scope::scope_params;
use crate::scope::scope_params_from;
use crate::scope::scope_uses_loop;

verus! {

/// Rendering is deterministic: the generated text is a function of the
/// node tree and the two metadata strings alone, so two renders of equal
/// inputs give byte-identical output.
pub proof fn lemma_render_deterministic(
    nodes1: Seq<Node>,
    nodes2: Seq<Node>,
    prog1: Seq<char>,
    prog2: Seq<char>,
    file1: Seq<char>,
    file2: Seq<char>,
)
    requires
        nodes1 == nodes2,
        prog1 == prog2,
        file1 == file2,
    ensures
        rendered_output(nodes1, prog1, file1) == rendered_output(nodes2, prog2, file2),
{
}

/// The statement block each node contributes, in input order.
pub open spec fn statement_blocks(nodes: Seq<Node>) -> Seq<Seq<char>> {
    nodes.map_values(|n: Node| node_lines(n))
}

/// Whether a node is a parameter declaration.
pub open spec fn is_param_node(n: Node) -> bool {
    n is ParamDeclaration
}

/// The (name, type) entry of a parameter declaration node.
pub open spec fn param_entry(n: Node) -> (Seq<char>, Seq<char>) {
    (n->ParamDeclaration_0@, n->ParamDeclaration_2@)
}

/// The parameter entries of a sibling sequence, in declaration order.
pub open spec fn declared_params_of(nodes: Seq<Node>) -> Seq<(Seq<char>, Seq<char>)> {
    nodes.filter(|n: Node| is_param_node(n)).map_values(|n: Node| param_entry(n))
}

proof fn lemma_lines_flatten_from(nodes: Seq<Node>, i: int)
    requires
        0 <= i <= nodes.len(),
    ensures
        scope_lines_from(nodes, i) == statement_blocks(
            nodes.subrange(i, nodes.len() as int),
        ).flatten(),
    decreases nodes.len() - i,
{
    let f = |n: Node| node_lines(n);
    let len = nodes.len() as int;
    if i == len {
        assert(nodes.subrange(i, len) =~= Seq::<Node>::empty());
        assert(Seq::<Node>::empty().map_values(f) =~= Seq::<Seq<char>>::empty());
        assert(Seq::<Seq<char>>::empty().flatten() == Seq::<char>::empty());
    } else {
        lemma_lines_flatten_from(nodes, i + 1);
        let sub = nodes.subrange(i, len);
        let m = statement_blocks(sub);
        assert(m[0] == f(sub[0]));
        assert(m.first() == node_lines(nodes[i]));
        assert(m.drop_first() =~= statement_blocks(nodes.subrange(i + 1, len)));
        assert(m.flatten() == m.first() + m.drop_first().flatten());
    }
}

proof fn lemma_params_filter_from(nodes: Seq<Node>, i: int)
    requires
        0 <= i <= nodes.len(),
    ensures
        scope_params_from(nodes, i) == declared_params_of(nodes.subrange(i, nodes.len() as int)),
    decreases nodes.len() - i,
{
    reveal(Seq::filter);
    let p = |n: Node| is_param_node(n);
    let g = |n: Node| param_entry(n);
    let len = nodes.len() as int;
    if i == len {
        assert(nodes.subrange(i, len) =~= Seq::<Node>::empty());
        assert(Seq::<Node>::empty().filter(p) == Seq::<Node>::empty());
        assert(Seq::<Node>::empty().map_values(g) =~= Seq::<(Seq<char>, Seq<char>)>::empty());
    } else {
        lemma_params_filter_from(nodes, i + 1);
        let sub = nodes.subrange(i, len);
        let sing = seq![nodes[i]];
        let rest = nodes.subrange(i + 1, len);
        assert(sub =~= sing + rest);
        Seq::<Node>::filter_distributes_over_add(sing, rest, p);
        assert(sing.drop_last() =~= Seq::<Node>::empty());
        assert(Seq::<Node>::empty().filter(p) == Seq::<Node>::empty());
        assert(sing.last() == nodes[i]);
        if is_param_node(nodes[i]) {
            assert(sing.filter(p) =~= sing);
            assert(sub.filter(p) =~= sing + rest.filter(p));
            assert(sub.filter(p).map_values(g) =~= seq![param_entry(nodes[i])] + rest.filter(
                p,
            ).map_values(g));
        } else {
            assert(sing.filter(p) =~= Seq::<Node>::empty());
            assert(sub.filter(p) =~= rest.filter(p));
        }
    }
}

/// The emitted statement text of a scope is the concatenation, in input
/// order, of the blocks its nodes contribute, and the declared parameters
/// of a scope are exactly its parameter declarations, first declaration
/// first: nothing is reordered, batched or dropped.
pub proof fn lemma_order_preservation(nodes: Seq<Node>)
    ensures
        scope_lines(nodes) == statement_blocks(nodes).flatten(),
        scope_params(nodes) == declared_params_of(nodes),
{
    lemma_lines_flatten_from(nodes, 0);
    lemma_params_filter_from(nodes, 0);
    assert(nodes.subrange(0, nodes.len() as int) =~= nodes);
}

proof fn lemma_has_content_exists_from(nodes: Seq<Node>, i: int)
    requires
        0 <= i <= nodes.len(),
    ensures
        scope_has_content_from(nodes, i) <==> exists|j: int|
            i <= j < nodes.len() && node_has_content(nodes[j]),
    decreases nodes.len() - i,
{
    if i < nodes.len() {
        lemma_has_content_exists_from(nodes, i + 1);
        if node_has_content(nodes[i]) {
            assert(i <= i < nodes.len() && node_has_content(nodes[i]));
        }
    }
}

/// A scope counts as renderable exactly when some top-level node
/// contributes content.  A document whose only top-level nodes are
/// all-whitespace text is not renderable, so no builder/string pair is
/// assembled for it; one parameter declaration alone already makes it
/// renderable.
pub proof fn lemma_content_gating(nodes: Seq<Node>)
    ensures
        scope_has_content(nodes) <==> exists|j: int|
            0 <= j < nodes.len() && node_has_content(nodes[j]),
        (forall|j: int|
            0 <= j < nodes.len() ==> nodes[j] is Text && !crate::text::has_visible_text(
                nodes[j]->Text_0@,
            )) ==> !scope_has_content(nodes),
        (exists|j: int| 0 <= j < nodes.len() && nodes[j] is ParamDeclaration)
            ==> scope_has_content(nodes),
{
    lemma_has_content_exists_from(nodes, 0);
}

/// Everything of the generated file that follows the header and the
/// optional collection-utility import.
pub open spec fn document_tail(nodes: Seq<Node>) -> Seq<char> {
    "\n"@ + import_lines_text(scope_imports(nodes)) + functions_join_text(scope_functions(nodes))
        + "\n"@ + (if scope_has_content(nodes) {
        render_fns_text(scope_params(nodes), scope_lines(nodes))
    } else {
        Seq::empty()
    }) + "\n"@
}

/// The generated file holds the collection-utility import line exactly
/// when a loop is rendered anywhere reachable from the top level; nothing
/// else about the file changes with that flag.
pub proof fn lemma_loop_import_gating(nodes: Seq<Node>, prog: Seq<char>, file: Seq<char>)
    ensures
        scope_uses_loop(nodes) ==> rendered_output(nodes, prog, file) == file_header(prog, file)
            + "import gleam/list\n"@ + document_tail(nodes),
        !scope_uses_loop(nodes) ==> rendered_output(nodes, prog, file) == file_header(prog, file)
            + document_tail(nodes),
{
    if scope_uses_loop(nodes) {
        assert(rendered_output(nodes, prog, file) =~= file_header(prog, file)
            + "import gleam/list\n"@ + document_tail(nodes));
    } else {
        assert(rendered_output(nodes, prog, file) =~= file_header(prog, file) + document_tail(
            nodes,
        ));
    }
}

/// No two parameter declarations in one sibling sequence share a name.
pub open spec fn params_distinct(nodes: Seq<Node>) -> bool {
    forall|k: int, j: int|
        0 <= k < j < nodes.len() && nodes[k] is ParamDeclaration && nodes[j] is ParamDeclaration
            ==> nodes[k]->ParamDeclaration_0@ != nodes[j]->ParamDeclaration_0@
}

/// Every scope nested inside this node declares its parameters without
/// duplicates, recursively.
pub open spec fn node_scopes_ok(node: Node) -> bool
    decreases node, 0int,
{
    match node {
        Node::Conditional(_, then_nodes, else_nodes) => params_distinct(then_nodes@)
            && nodes_scopes_ok_from(then_nodes@, 0) && params_distinct(else_nodes@)
            && nodes_scopes_ok_from(else_nodes@, 0),
        Node::Loop(_, _, _, body) => params_distinct(body@) && nodes_scopes_ok_from(body@, 0),
        Node::FunctionDefinition(_, _, body, _) => params_distinct(body@) && nodes_scopes_ok_from(
            body@,
            0,
        ),
        _ => true,
    }
}

/// Every scope nested inside the siblings from position `i` on is free of
/// duplicate parameters.
pub open spec fn nodes_scopes_ok_from(nodes: Seq<Node>, i: int) -> bool
    decreases nodes, nodes.len() - i,
{
    if i < 0 || i >= nodes.len() {
        true
    } else {
        node_scopes_ok(nodes[i]) && nodes_scopes_ok_from(nodes, i + 1)
    }
}

/// The scope and every scope nested below it declare their parameters
/// without duplicates.
pub open spec fn scopes_ok(nodes: Seq<Node>) -> bool {
    params_distinct(nodes) && nodes_scopes_ok_from(nodes, 0)
}

proof fn lemma_push_contains(s: Seq<Seq<char>>, x: Seq<char>, y: Seq<char>)
    ensures
        s.push(x).contains(y) <==> (s.contains(y) || y == x),
{
    if s.push(x).contains(y) {
        let idx = choose|idx: int| 0 <= idx < s.push(x).len() && s.push(x)[idx] == y;
        if idx < s.len() {
            assert(s[idx] == y);
        } else {
            assert(y == x);
        }
    }
    if s.contains(y) {
        let idx = choose|idx: int| 0 <= idx < s.len() && s[idx] == y;
        assert(s.push(x)[idx] == y);
    }
    if y == x {
        assert(s.push(x)[s.len() as int] == y);
    }
}

proof fn lemma_error_iff_from(nodes: Seq<Node>, i: int, seen: Seq<Seq<char>>)
    requires
        0 <= i <= nodes.len(),
    ensures
        scope_error_from(nodes, i, seen) is None <==> ({
            &&& forall|j: int|
                i <= j < nodes.len() && nodes[j] is ParamDeclaration ==> !seen.contains(
                    nodes[j]->ParamDeclaration_0@,
                )
            &&& forall|k: int, j: int|
                i <= k < j < nodes.len() && nodes[k] is ParamDeclaration
                    && nodes[j] is ParamDeclaration ==> nodes[k]->ParamDeclaration_0@
                    != nodes[j]->ParamDeclaration_0@
            &&& forall|j: int| i <= j < nodes.len() ==> node_error(nodes[j]) is None
        }),
    decreases nodes.len() - i,
{
    if i == nodes.len() {
    } else {
        let node = nodes[i];
        if node is ParamDeclaration {
            let name = node->ParamDeclaration_0@;
            if seen.contains(name) {
                assert(scope_error_from(nodes, i, seen) is Some);
            } else {
                let seen2 = seen.push(name);
                lemma_error_iff_from(nodes, i + 1, seen2);
                assert forall|y: Seq<char>| #[trigger] seen2.contains(y) implies (seen.contains(y)
                    || y == name) by {
                    lemma_push_contains(seen, name, y);
                }
                assert forall|y: Seq<char>| seen.contains(y) || y == name implies #[trigger] seen2.contains(
                    y,
                ) by {
                    lemma_push_contains(seen, name, y);
                }
                assert(scope_error_from(nodes, i, seen) == scope_error_from(nodes, i + 1, seen2));
                assert(node_error(node) is None);
            }
        } else {
            if node_error(node) is Some {
                assert(scope_error_from(nodes, i, seen) is Some);
            } else {
                lemma_error_iff_from(nodes, i + 1, seen);
                assert(scope_error_from(nodes, i, seen) == scope_error_from(nodes, i + 1, seen));
            }
        }
    }
}

proof fn lemma_scopes_ok_from_pointwise(nodes: Seq<Node>, i: int)
    requires
        0 <= i <= nodes.len(),
    ensures
        nodes_scopes_ok_from(nodes, i) <==> (forall|j: int|
            i <= j < nodes.len() ==> node_scopes_ok(nodes[j])),
    decreases nodes.len() - i,
{
    if i < nodes.len() {
        lemma_scopes_ok_from_pointwise(nodes, i + 1);
    }
}

proof fn lemma_node_error_iff(node: Node)
    ensures
        node_error(node) is None <==> node_scopes_ok(node),
    decreases node, 1int,
{
    match node {
        Node::Conditional(_, then_nodes, else_nodes) => {
            lemma_duplicate_detection(then_nodes@);
            lemma_duplicate_detection(else_nodes@);
        },
        Node::Loop(_, _, _, body) => {
            lemma_duplicate_detection(body@);
        },
        Node::FunctionDefinition(_, _, body, _) => {
            lemma_duplicate_detection(body@);
        },
        _ => {},
    }
}

/// Rendering a scope succeeds exactly when no sibling sequence in it (the
/// scope itself, or any nested conditional branch, loop body or function
/// body) declares two parameters with the same name.  Equal names in
/// different scopes never conflict.
pub proof fn lemma_duplicate_detection(nodes: Seq<Node>)
    ensures
        scope_error(nodes) is None <==> scopes_ok(nodes),
    decreases nodes, 0int,
{
    lemma_error_iff_from(nodes, 0, Seq::<Seq<char>>::empty());
    lemma_scopes_ok_from_pointwise(nodes, 0);
    assert forall|y: Seq<char>| !(#[trigger] Seq::<Seq<char>>::empty().contains(y)) by {}
    assert forall|j: int| 0 <= j < nodes.len() implies (#[trigger] node_error(nodes[j]) is None
        <==> node_scopes_ok(nodes[j])) by {
        lemma_node_error_iff(nodes[j]);
    }
}

} // verus!
