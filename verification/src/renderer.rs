//! The rendering engine: one recursive pass over the node tree, then the
//! assembly of the top-level scope into the generated source file.

use vstd::prelude::*;
use vstd::string::StrSliceExecFns;
use vstd::string::StringExecFns;

use crate::ast::Node;
use crate::ast::Range;
use crate::ast::Visibility;
use crate::scope::ScopeView;
use crate::scope::function_text;
use crate::scope::node_error;
use crate::scope::node_lines;
use crate::scope::node_uses_loop;
use crate::scope::param_names;
use crate::scope::params_view;
use crate::scope::scope_error;
use crate::scope::scope_error_from;
use crate::scope::scope_functions;
use crate::scope::scope_functions_from;
use crate::scope::scope_has_content;
use crate::scope::scope_has_content_from;
use crate::scope::scope_imports;
use crate::scope::scope_imports_from;
use crate::scope::scope_lines;
use crate::scope::scope_lines_from;
use crate::scope::scope_params;
use crate::scope::scope_params_from;
use crate::scope::scope_uses_loop;
use crate::scope::scope_uses_loop_from;
use crate::scope::scope_view;
use crate::scope::strings_view;
use crate::text::escape_text;
use crate::text::text_has_visible_content;

verus! {

/// The one way rendering can fail: a parameter declared twice in the same
/// scope, with the offending name and the second declaration's position.
#[derive(Debug)]
pub enum RenderError {
    DuplicateParamName(String, Range),
}

/// The accumulator produced by rendering one sequence of sibling nodes.
pub struct ScopeResult {
    /// The emitted statement lines that build this scope's output value.
    pub builder_lines: String,
    /// The import paths collected at this scope, duplicates preserved.
    pub imports: Vec<String>,
    /// The fully rendered named function definitions of this scope.
    pub functions: Vec<String>,
    /// The declared (name, type) parameters, in declaration order.
    pub typed_params: Vec<(String, String)>,
    /// Whether a loop was rendered in this scope or any nested scope.
    pub includes_for_loop: bool,
    /// Whether this scope holds renderable content at its top level.
    pub has_template_content: bool,
}

impl View for ScopeResult {
    type V = ScopeView;

    open spec fn view(&self) -> ScopeView {
        ScopeView {
            lines: self.builder_lines@,
            imports: strings_view(self.imports@),
            functions: strings_view(self.functions@),
            params: params_view(self.typed_params@),
            uses_loop: self.includes_for_loop,
            has_content: self.has_template_content,
        }
    }
}

/// One `name name: Type` entry of the generated parameter list.
pub open spec fn param_sig(p: (Seq<char>, Seq<char>)) -> Seq<char> {
    p.0 + " "@ + p.0 + ": "@ + p.1
}

/// The `, `-separated parameter entries from position `i` on, each with its
/// leading separator.
pub open spec fn params_sig_from(params: Seq<(Seq<char>, Seq<char>)>, i: int) -> Seq<char>
    decreases params.len() - i,
{
    if i < 0 || i >= params.len() {
        Seq::empty()
    } else {
        ", "@ + param_sig(params[i]) + params_sig_from(params, i + 1)
    }
}

/// The full parameter-list text of the generated render functions.
pub open spec fn params_sig_text(params: Seq<(Seq<char>, Seq<char>)>) -> Seq<char> {
    if params.len() == 0 {
        Seq::empty()
    } else {
        param_sig(params[0]) + params_sig_from(params, 1)
    }
}

/// One `name: name` entry of the call-argument list.
pub open spec fn param_arg(p: (Seq<char>, Seq<char>)) -> Seq<char> {
    p.0 + ": "@ + p.0
}

/// The `, `-separated argument entries from position `i` on.
pub open spec fn args_from(params: Seq<(Seq<char>, Seq<char>)>, i: int) -> Seq<char>
    decreases params.len() - i,
{
    if i < 0 || i >= params.len() {
        Seq::empty()
    } else {
        ", "@ + param_arg(params[i]) + args_from(params, i + 1)
    }
}

/// The full call-argument text used when `render` invokes `render_builder`.
pub open spec fn args_text(params: Seq<(Seq<char>, Seq<char>)>) -> Seq<char> {
    if params.len() == 0 {
        Seq::empty()
    } else {
        param_arg(params[0]) + args_from(params, 1)
    }
}

/// The newline-separated `import` lines from position `i` on.
pub open spec fn import_lines_from(imports: Seq<Seq<char>>, i: int) -> Seq<char>
    decreases imports.len() - i,
{
    if i < 0 || i >= imports.len() {
        Seq::empty()
    } else {
        "\nimport "@ + imports[i] + import_lines_from(imports, i + 1)
    }
}

/// The collected import lines, one per collected path, in order.
pub open spec fn import_lines_text(imports: Seq<Seq<char>>) -> Seq<char> {
    if imports.len() == 0 {
        Seq::empty()
    } else {
        "import "@ + imports[0] + import_lines_from(imports, 1)
    }
}

/// The generated function definitions from position `i` on, blank-line
/// separated.
pub open spec fn functions_join_from(functions: Seq<Seq<char>>, i: int) -> Seq<char>
    decreases functions.len() - i,
{
    if i < 0 || i >= functions.len() {
        Seq::empty()
    } else {
        "\n\n"@ + functions[i] + functions_join_from(functions, i + 1)
    }
}

/// All generated function definitions, blank-line separated.
pub open spec fn functions_join_text(functions: Seq<Seq<char>>) -> Seq<char> {
    if functions.len() == 0 {
        Seq::empty()
    } else {
        functions[0] + functions_join_from(functions, 1)
    }
}

/// The public builder/string function pair emitted when the document has
/// renderable content.
pub open spec fn render_fns_text(params: Seq<(Seq<char>, Seq<char>)>, lines: Seq<char>) -> Seq<
    char,
> {
    "\npub fn render_builder("@ + params_sig_text(params)
        + ") -> StringBuilder {\n    let builder = string_builder.from_string(\"\")\n"@ + lines
        + "\n    builder\n}\n\npub fn render("@ + params_sig_text(params)
        + ") -> String {\n    string_builder.to_string(render_builder("@ + args_text(params)
        + "))\n}\n"@
}

/// The generated-file header: the do-not-edit comment naming the generator
/// and the source file, and the always-present builder-type import.
pub open spec fn file_header(prog: Seq<char>, file: Seq<char>) -> Seq<char> {
    "// DO NOT EDIT: Code generated by "@ + prog + " from "@ + file
        + "\n\nimport gleam/string_builder.{type StringBuilder}\n"@
}

/// The collection-utility import line, present exactly when a loop is
/// rendered anywhere in the document.
pub open spec fn list_import_text(uses_loop: bool) -> Seq<char> {
    if uses_loop {
        "import gleam/list\n"@
    } else {
        Seq::empty()
    }
}

/// The complete generated source text assembled from a top-level scope.
pub open spec fn assembled(scope: ScopeView, prog: Seq<char>, file: Seq<char>) -> Seq<char> {
    file_header(prog, file) + list_import_text(scope.uses_loop) + "\n"@ + import_lines_text(
        scope.imports,
    ) + functions_join_text(scope.functions) + "\n"@ + (if scope.has_content {
        render_fns_text(scope.params, scope.lines)
    } else {
        Seq::empty()
    }) + "\n"@
}

/// What rendering an error-free document produces.
pub open spec fn rendered_output(nodes: Seq<Node>, prog: Seq<char>, file: Seq<char>) -> Seq<
    char,
> {
    assembled(scope_view(nodes), prog, file)
}

/// Whether the scope has already declared a parameter under this name.
fn params_contain(params: &Vec<(String, String)>, name: &String) -> (r: bool)
    ensures
        r == param_names(params_view(params@)).contains(name@),
{
    let mut j: usize = 0;
    while j < params.len()
        invariant
            0 <= j <= params@.len(),
            forall|k: int| 0 <= k < j ==> param_names(params_view(params@))[k] != name@,
        decreases params@.len() - j,
    {
        if params[j].0 == *name {
            proof {
                assert(param_names(params_view(params@))[j as int] == name@);
            }
            return true;
        }
        j = j + 1;
    }
    proof {
        assert(!param_names(params_view(params@)).contains(name@));
    }
    false
}

/// The `import` lines of the generated file, newline separated.
fn import_lines_string(imports: &Vec<String>) -> (r: String)
    ensures
        r@ == import_lines_text(strings_view(imports@)),
{
    let ghost iv = strings_view(imports@);
    let mut out = String::new();
    if imports.len() == 0 {
        return out;
    }
    out.append("import ");
    out.append(imports[0].as_str());
    let mut i: usize = 1;
    proof {
        assert(import_lines_text(iv) =~= out@ + import_lines_from(iv, 1));
    }
    while i < imports.len()
        invariant
            1 <= i <= imports@.len(),
            iv == strings_view(imports@),
            import_lines_text(iv) == out@ + import_lines_from(iv, i as int),
        decreases imports@.len() - i,
    {
        out.append("\nimport ");
        out.append(imports[i].as_str());
        proof {
            assert(import_lines_text(iv) =~= out@ + import_lines_from(iv, i + 1));
        }
        i = i + 1;
    }
    proof {
        assert(import_lines_text(iv) =~= out@);
    }
    out
}

/// The parameter-list text: `name name: Type`, comma separated, in
/// declaration order.
fn params_sig_string(params: &Vec<(String, String)>) -> (r: String)
    ensures
        r@ == params_sig_text(params_view(params@)),
{
    let ghost pv = params_view(params@);
    let mut out = String::new();
    if params.len() == 0 {
        return out;
    }
    out.append(params[0].0.as_str());
    out.append(" ");
    out.append(params[0].0.as_str());
    out.append(": ");
    out.append(params[0].1.as_str());
    let mut i: usize = 1;
    proof {
        assert(params_sig_text(pv) =~= out@ + params_sig_from(pv, 1));
    }
    while i < params.len()
        invariant
            1 <= i <= params@.len(),
            pv == params_view(params@),
            params_sig_text(pv) == out@ + params_sig_from(pv, i as int),
        decreases params@.len() - i,
    {
        out.append(", ");
        out.append(params[i].0.as_str());
        out.append(" ");
        out.append(params[i].0.as_str());
        out.append(": ");
        out.append(params[i].1.as_str());
        proof {
            assert(params_sig_text(pv) =~= out@ + params_sig_from(pv, i + 1));
        }
        i = i + 1;
    }
    proof {
        assert(params_sig_text(pv) =~= out@);
    }
    out
}

/// The call-argument text: `name: name`, comma separated, same order.
fn args_string(params: &Vec<(String, String)>) -> (r: String)
    ensures
        r@ == args_text(params_view(params@)),
{
    let ghost pv = params_view(params@);
    let mut out = String::new();
    if params.len() == 0 {
        return out;
    }
    out.append(params[0].0.as_str());
    out.append(": ");
    out.append(params[0].0.as_str());
    let mut i: usize = 1;
    proof {
        assert(args_text(pv) =~= out@ + args_from(pv, 1));
    }
    while i < params.len()
        invariant
            1 <= i <= params@.len(),
            pv == params_view(params@),
            args_text(pv) == out@ + args_from(pv, i as int),
        decreases params@.len() - i,
    {
        out.append(", ");
        out.append(params[i].0.as_str());
        out.append(": ");
        out.append(params[i].0.as_str());
        proof {
            assert(args_text(pv) =~= out@ + args_from(pv, i + 1));
        }
        i = i + 1;
    }
    proof {
        assert(args_text(pv) =~= out@);
    }
    out
}

/// The generated function definitions, blank-line separated.
fn functions_join_string(functions: &Vec<String>) -> (r: String)
    ensures
        r@ == functions_join_text(strings_view(functions@)),
{
    let ghost fv = strings_view(functions@);
    let mut out = String::new();
    if functions.len() == 0 {
        return out;
    }
    out.append(functions[0].as_str());
    let mut i: usize = 1;
    proof {
        assert(functions_join_text(fv) =~= out@ + functions_join_from(fv, 1));
    }
    while i < functions.len()
        invariant
            1 <= i <= functions@.len(),
            fv == strings_view(functions@),
            functions_join_text(fv) == out@ + functions_join_from(fv, i as int),
        decreases functions@.len() - i,
    {
        out.append("\n\n");
        out.append(functions[i].as_str());
        proof {
            assert(functions_join_text(fv) =~= out@ + functions_join_from(fv, i + 1));
        }
        i = i + 1;
    }
    proof {
        assert(functions_join_text(fv) =~= out@);
    }
    out
}

/// Render one sequence of sibling nodes into a fresh `ScopeResult`, or fail
/// with the scope's first duplicate-parameter error.
#[verifier::rlimit(100)]
pub fn render_lines(nodes: &Vec<Node>) -> (r: Result<ScopeResult, RenderError>)
    ensures
        match r {
            Result::Ok(ctx) => scope_error(nodes@) is None && ctx@ == scope_view(nodes@),
            Result::Err(e) => e matches RenderError::DuplicateParamName(name, range)
                && scope_error(nodes@) == Option::Some((name@, range)),
        },
    decreases nodes@,
{
    let mut builder_lines = String::new();
    let mut imports: Vec<String> = Vec::new();
    let mut functions: Vec<String> = Vec::new();
    let mut typed_params: Vec<(String, String)> = Vec::new();
    let mut includes_for_loop = false;
    let mut has_template_content = false;
    let n = nodes.len();
    let mut i: usize = 0;
    proof {
        assert(strings_view(imports@) =~= Seq::<Seq<char>>::empty());
        assert(strings_view(functions@) =~= Seq::<Seq<char>>::empty());
        assert(params_view(typed_params@) =~= Seq::<(Seq<char>, Seq<char>)>::empty());
        assert(param_names(params_view(typed_params@)) =~= Seq::<Seq<char>>::empty());
        assert(scope_lines(nodes@) =~= builder_lines@ + scope_lines_from(nodes@, 0));
        assert(scope_imports(nodes@) =~= strings_view(imports@) + scope_imports_from(nodes@, 0));
        assert(scope_functions(nodes@) =~= strings_view(functions@) + scope_functions_from(
            nodes@,
            0,
        ));
        assert(scope_params(nodes@) =~= params_view(typed_params@) + scope_params_from(nodes@, 0));
    }
    while i < n
        invariant
            0 <= i <= n,
            n == nodes@.len(),
            scope_lines(nodes@) == builder_lines@ + scope_lines_from(nodes@, i as int),
            scope_imports(nodes@) == strings_view(imports@) + scope_imports_from(
                nodes@,
                i as int,
            ),
            scope_functions(nodes@) == strings_view(functions@) + scope_functions_from(
                nodes@,
                i as int,
            ),
            scope_params(nodes@) == params_view(typed_params@) + scope_params_from(
                nodes@,
                i as int,
            ),
            scope_uses_loop(nodes@) == (includes_for_loop || scope_uses_loop_from(
                nodes@,
                i as int,
            )),
            scope_has_content(nodes@) == (has_template_content || scope_has_content_from(
                nodes@,
                i as int,
            )),
            scope_error(nodes@) == scope_error_from(
                nodes@,
                i as int,
                param_names(params_view(typed_params@)),
            ),
        decreases n - i,
    {
        let ghost bl0 = builder_lines@;
        match &nodes[i] {
            Node::Text(text) => {
                builder_lines.append("    let builder = string_builder.append(builder, \"");
                let esc = escape_text(text.as_str());
                builder_lines.append(esc.as_str());
                builder_lines.append("\")\n");
                let visible = text_has_visible_content(text.as_str());
                has_template_content = has_template_content || visible;
                proof {
                    assert(builder_lines@ =~= bl0 + node_lines(nodes@[i as int]));
                    assert(scope_lines(nodes@) =~= builder_lines@ + scope_lines_from(
                        nodes@,
                        i + 1,
                    ));
                    assert(node_error(nodes@[i as int]) is None);
                    assert(!node_uses_loop(nodes@[i as int]));
                    assert(scope_uses_loop(nodes@) == (includes_for_loop
                        || scope_uses_loop_from(nodes@, i + 1)));
                }
            },
            Node::Expression(code) => {
                builder_lines.append("    let builder = string_builder.append(builder, ");
                builder_lines.append(code.as_str());
                builder_lines.append(")\n");
                has_template_content = true;
                proof {
                    assert(builder_lines@ =~= bl0 + node_lines(nodes@[i as int]));
                    assert(scope_lines(nodes@) =~= builder_lines@ + scope_lines_from(
                        nodes@,
                        i + 1,
                    ));
                    assert(node_error(nodes@[i as int]) is None);
                    assert(!node_uses_loop(nodes@[i as int]));
                    assert(scope_uses_loop(nodes@) == (includes_for_loop
                        || scope_uses_loop_from(nodes@, i + 1)));
                }
            },
            Node::BuilderExpression(code) => {
                builder_lines.append("    let builder = string_builder.append_builder(builder, ");
                builder_lines.append(code.as_str());
                builder_lines.append(")\n");
                has_template_content = true;
                proof {
                    assert(builder_lines@ =~= bl0 + node_lines(nodes@[i as int]));
                    assert(scope_lines(nodes@) =~= builder_lines@ + scope_lines_from(
                        nodes@,
                        i + 1,
                    ));
                    assert(node_error(nodes@[i as int]) is None);
                    assert(!node_uses_loop(nodes@[i as int]));
                    assert(scope_uses_loop(nodes@) == (includes_for_loop
                        || scope_uses_loop_from(nodes@, i + 1)));
                }
            },
            Node::Import(path) => {
                let ghost imports0 = imports@;
                imports.push(path.clone());
                proof {
                    assert(strings_view(imports@) =~= strings_view(imports0).push(path@));
                    assert(scope_imports(nodes@) =~= strings_view(imports@)
                        + scope_imports_from(nodes@, i + 1));
                    assert(node_error(nodes@[i as int]) is None);
                    assert(!node_uses_loop(nodes@[i as int]));
                    assert(scope_uses_loop(nodes@) == (includes_for_loop
                        || scope_uses_loop_from(nodes@, i + 1)));
                }
            },
            Node::ParamDeclaration(name, range, tname) => {
                if params_contain(&typed_params, name) {
                    proof {
                        assert(scope_error(nodes@) == Option::Some((name@, *range)));
                    }
                    return Result::Err(RenderError::DuplicateParamName(name.clone(), *range));
                }
                let ghost tp0 = typed_params@;
                typed_params.push((name.clone(), tname.clone()));
                has_template_content = true;
                proof {
                    assert(params_view(typed_params@) =~= params_view(tp0).push(
                        (name@, tname@),
                    ));
                    assert(param_names(params_view(typed_params@)) =~= param_names(
                        params_view(tp0),
                    ).push(name@));
                    assert(scope_params(nodes@) =~= params_view(typed_params@)
                        + scope_params_from(nodes@, i + 1));
                    assert(node_error(nodes@[i as int]) is None);
                    assert(!node_uses_loop(nodes@[i as int]));
                    assert(scope_uses_loop(nodes@) == (includes_for_loop
                        || scope_uses_loop_from(nodes@, i + 1)));
                }
            },
            Node::Conditional(cond, then_nodes, else_nodes) => {
                proof {
                    assert(decreases_to!(nodes@ => nodes@[i as int]));
                    assert(decreases_to!(nodes@[i as int] => *then_nodes));
                    assert(decreases_to!(nodes@[i as int] => *else_nodes));
                }
                let if_ctx = match render_lines(then_nodes) {
                    Result::Ok(c) => c,
                    Result::Err(e) => {
                        proof {
                            assert(node_error(nodes@[i as int]) == scope_error(then_nodes@));
                        }
                        return Result::Err(e);
                    },
                };
                let else_ctx = match render_lines(else_nodes) {
                    Result::Ok(c) => c,
                    Result::Err(e) => {
                        proof {
                            assert(node_error(nodes@[i as int]) == scope_error(else_nodes@));
                        }
                        return Result::Err(e);
                    },
                };
                builder_lines.append("    let builder = case ");
                builder_lines.append(cond.as_str());
                builder_lines.append(" {\n        True -> {\n            ");
                builder_lines.append(if_ctx.builder_lines.as_str());
                builder_lines.append("\n            builder\n        }\n        False -> {\n            ");
                builder_lines.append(else_ctx.builder_lines.as_str());
                builder_lines.append("\n            builder\n        }\n}\n");
                includes_for_loop = includes_for_loop || if_ctx.includes_for_loop
                    || else_ctx.includes_for_loop;
                has_template_content = true;
                proof {
                    assert(builder_lines@ =~= bl0 + node_lines(nodes@[i as int]));
                    assert(scope_lines(nodes@) =~= builder_lines@ + scope_lines_from(
                        nodes@,
                        i + 1,
                    ));
                    assert(node_error(nodes@[i as int]) is None);
                    assert(node_uses_loop(nodes@[i as int]) == (scope_uses_loop(then_nodes@)
                        || scope_uses_loop(else_nodes@)));
                    assert(scope_uses_loop_from(nodes@, i as int) == (node_uses_loop(
                        nodes@[i as int],
                    ) || scope_uses_loop_from(nodes@, i + 1)));
                    assert(scope_uses_loop(nodes@) == (includes_for_loop
                        || scope_uses_loop_from(nodes@, i + 1)));
                }
            },
            Node::Loop(item, ann, coll, body) => {
                proof {
                    assert(decreases_to!(nodes@ => nodes@[i as int]));
                    assert(decreases_to!(nodes@[i as int] => *body));
                }
                let body_ctx = match render_lines(body) {
                    Result::Ok(c) => c,
                    Result::Err(e) => {
                        proof {
                            assert(node_error(nodes@[i as int]) == scope_error(body@));
                        }
                        return Result::Err(e);
                    },
                };
                builder_lines.append("    let builder = list.fold(");
                builder_lines.append(coll.as_str());
                builder_lines.append(", builder, fn(builder, ");
                builder_lines.append(item.as_str());
                match ann {
                    Option::Some(t) => {
                        builder_lines.append(": ");
                        builder_lines.append(t.as_str());
                    },
                    Option::None => {},
                }
                builder_lines.append(") {\n        ");
                builder_lines.append(body_ctx.builder_lines.as_str());
                builder_lines.append("\n        builder\n})\n");
                includes_for_loop = true;
                has_template_content = true;
                proof {
                    assert(builder_lines@ =~= bl0 + node_lines(nodes@[i as int]));
                    assert(scope_lines(nodes@) =~= builder_lines@ + scope_lines_from(
                        nodes@,
                        i + 1,
                    ));
                    assert(node_error(nodes@[i as int]) is None);
                    assert(node_uses_loop(nodes@[i as int]));
                    assert(scope_uses_loop_from(nodes@, i as int) == (node_uses_loop(
                        nodes@[i as int],
                    ) || scope_uses_loop_from(nodes@, i + 1)));
                    assert(scope_uses_loop(nodes@) == (includes_for_loop
                        || scope_uses_loop_from(nodes@, i + 1)));
                }
            },
            Node::FunctionDefinition(vis, head, body, _range) => {
                proof {
                    assert(decreases_to!(nodes@ => nodes@[i as int]));
                    assert(decreases_to!(nodes@[i as int] => *body));
                }
                let body_ctx = match render_lines(body) {
                    Result::Ok(c) => c,
                    Result::Err(e) => {
                        proof {
                            assert(node_error(nodes@[i as int]) == scope_error(body@));
                        }
                        return Result::Err(e);
                    },
                };
                let mut ftext = String::new();
                let is_public = match vis {
                    Visibility::Public => true,
                    Visibility::Private => false,
                };
                if is_public {
                    ftext.append("pub ");
                }
                ftext.append("fn ");
                ftext.append(head.as_str());
                ftext.append(" -> StringBuilder {\n    let builder = string_builder.from_string(\"\")\n");
                ftext.append(body_ctx.builder_lines.as_str());
                ftext.append("\n    builder\n}");
                proof {
                    assert(ftext@ =~= function_text(*vis, head@, scope_lines(body@)));
                }
                let ghost functions0 = functions@;
                functions.push(ftext);
                includes_for_loop = includes_for_loop || body_ctx.includes_for_loop;
                proof {
                    assert(strings_view(functions@) =~= strings_view(functions0).push(
                        function_text(*vis, head@, scope_lines(body@)),
                    ));
                    assert(scope_functions(nodes@) =~= strings_view(functions@)
                        + scope_functions_from(nodes@, i + 1));
                    assert(node_error(nodes@[i as int]) is None);
                    assert(node_uses_loop(nodes@[i as int]) == scope_uses_loop(body@));
                    assert(scope_uses_loop_from(nodes@, i as int) == (node_uses_loop(
                        nodes@[i as int],
                    ) || scope_uses_loop_from(nodes@, i + 1)));
                    assert(scope_uses_loop(nodes@) == (includes_for_loop
                        || scope_uses_loop_from(nodes@, i + 1)));
                }
            },
        }
        i = i + 1;
    }
    proof {
        assert(scope_lines(nodes@) =~= builder_lines@);
        assert(scope_imports(nodes@) =~= strings_view(imports@));
        assert(scope_functions(nodes@) =~= strings_view(functions@));
        assert(scope_params(nodes@) =~= params_view(typed_params@));
    }
    let ctx = ScopeResult {
        builder_lines,
        imports,
        functions,
        typed_params,
        includes_for_loop,
        has_template_content,
    };
    proof {
        assert(ctx@ =~= scope_view(nodes@));
    }
    Result::Ok(ctx)
}

/// Render a whole document: walk the top-level siblings, then assemble the
/// generated source file.  On success the returned text is exactly
/// `rendered_output` of the tree and the two metadata strings, which are
/// used verbatim only inside the header comment.
pub fn render(nodes: &Vec<Node>, prog_name: &str, from_file_name: &str) -> (r: Result<
    String,
    RenderError,
>)
    ensures
        match r {
            Result::Ok(text) => scope_error(nodes@) is None && text@ == rendered_output(
                nodes@,
                prog_name@,
                from_file_name@,
            ),
            Result::Err(e) => e matches RenderError::DuplicateParamName(name, range)
                && scope_error(nodes@) == Option::Some((name@, range)),
        },
{
    let context = match render_lines(nodes) {
        Result::Ok(c) => c,
        Result::Err(e) => {
            return Result::Err(e);
        },
    };
    let import_lines = import_lines_string(&context.imports);
    let params_string = params_sig_string(&context.typed_params);
    let args = args_string(&context.typed_params);
    let functions = functions_join_string(&context.functions);
    let mut output = String::new();
    output.append("// DO NOT EDIT: Code generated by ");
    output.append(prog_name);
    output.append(" from ");
    output.append(from_file_name);
    output.append("\n\nimport gleam/string_builder.{type StringBuilder}\n");
    if context.includes_for_loop {
        output.append("import gleam/list\n");
    }
    output.append("\n");
    output.append(import_lines.as_str());
    output.append(functions.as_str());
    output.append("\n");
    if context.has_template_content {
        output.append("\npub fn render_builder(");
        output.append(params_string.as_str());
        output.append(") -> StringBuilder {\n    let builder = string_builder.from_string(\"\")\n");
        output.append(context.builder_lines.as_str());
        output.append("\n    builder\n}\n\npub fn render(");
        output.append(params_string.as_str());
        output.append(") -> String {\n    string_builder.to_string(render_builder(");
        output.append(args.as_str());
        output.append("))\n}\n");
    }
    output.append("\n");
    proof {
        assert(output@ =~= rendered_output(nodes@, prog_name@, from_file_name@));
    }
    Result::Ok(output)
}

} // verus!
