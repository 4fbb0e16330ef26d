//! The renderer on whole documents: node trees the parser would hand
//! over, each checked against the exact generated source text.

use matcha::ast::{Node, Range, Visibility};
use matcha::renderer::render;

#[test]
fn test_render_pure_text() {
    let nodes: Vec<Node> = vec![
        Node::Text(String::from("Hello name, good to meet you")),
    ];
    let output = render(&nodes, "matcha", "-test-").unwrap();
    let expected = "// DO NOT EDIT: Code generated by matcha from -test-\n\nimport gleam/string_builder.{type StringBuilder}\n\n\n\npub fn render_builder() -> StringBuilder {\n    let builder = string_builder.from_string(\"\")\n    let builder = string_builder.append(builder, \"Hello name, good to meet you\")\n\n    builder\n}\n\npub fn render() -> String {\n    string_builder.to_string(render_builder())\n}\n\n";
    assert_eq!(output, expected);
}

#[test]
fn test_render_identifier() {
    let nodes: Vec<Node> = vec![
        Node::ParamDeclaration(String::from("name"), Range { start: 3, end: 7 }, String::from("String")),
        Node::Text(String::from("Hello ")),
        Node::Expression(String::from("name")),
        Node::Text(String::from(", good to meet you")),
    ];
    let output = render(&nodes, "matcha", "-test-").unwrap();
    let expected = "// DO NOT EDIT: Code generated by matcha from -test-\n\nimport gleam/string_builder.{type StringBuilder}\n\n\n\npub fn render_builder(name name: String) -> StringBuilder {\n    let builder = string_builder.from_string(\"\")\n    let builder = string_builder.append(builder, \"Hello \")\n    let builder = string_builder.append(builder, name)\n    let builder = string_builder.append(builder, \", good to meet you\")\n\n    builder\n}\n\npub fn render(name name: String) -> String {\n    string_builder.to_string(render_builder(name: name))\n}\n\n";
    assert_eq!(output, expected);
}

#[test]
fn test_render_two_identifiers() {
    let nodes: Vec<Node> = vec![
        Node::ParamDeclaration(String::from("name"), Range { start: 3, end: 7 }, String::from("String")),
        Node::ParamDeclaration(String::from("adjective"), Range { start: 26, end: 35 }, String::from("String")),
        Node::Text(String::from("Hello ")),
        Node::Expression(String::from("name")),
        Node::Text(String::from(", ")),
        Node::Expression(String::from("adjective")),
        Node::Text(String::from(" to meet you")),
    ];
    let output = render(&nodes, "matcha", "-test-").unwrap();
    let expected = "// DO NOT EDIT: Code generated by matcha from -test-\n\nimport gleam/string_builder.{type StringBuilder}\n\n\n\npub fn render_builder(name name: String, adjective adjective: String) -> StringBuilder {\n    let builder = string_builder.from_string(\"\")\n    let builder = string_builder.append(builder, \"Hello \")\n    let builder = string_builder.append(builder, name)\n    let builder = string_builder.append(builder, \", \")\n    let builder = string_builder.append(builder, adjective)\n    let builder = string_builder.append(builder, \" to meet you\")\n\n    builder\n}\n\npub fn render(name name: String, adjective adjective: String) -> String {\n    string_builder.to_string(render_builder(name: name, adjective: adjective))\n}\n\n";
    assert_eq!(output, expected);
}

#[test]
fn test_render_gleam_expression() {
    let nodes: Vec<Node> = vec![
        Node::Import(String::from("gleam/string")),
        Node::Text(String::from("Hello ")),
        Node::Expression(String::from("string.uppercase(name)")),
        Node::Text(String::from(", good to meet you")),
    ];
    let output = render(&nodes, "matcha", "-test-").unwrap();
    let expected = "// DO NOT EDIT: Code generated by matcha from -test-\n\nimport gleam/string_builder.{type StringBuilder}\n\nimport gleam/string\n\npub fn render_builder() -> StringBuilder {\n    let builder = string_builder.from_string(\"\")\n    let builder = string_builder.append(builder, \"Hello \")\n    let builder = string_builder.append(builder, string.uppercase(name))\n    let builder = string_builder.append(builder, \", good to meet you\")\n\n    builder\n}\n\npub fn render() -> String {\n    string_builder.to_string(render_builder())\n}\n\n";
    assert_eq!(output, expected);
}

#[test]
fn test_repeated_identifier_usage() {
    let nodes: Vec<Node> = vec![
        Node::ParamDeclaration(String::from("name"), Range { start: 3, end: 7 }, String::from("String")),
        Node::Expression(String::from("name")),
        Node::Text(String::from(" usage, ")),
        Node::Expression(String::from("name")),
        Node::Text(String::from(" usage")),
    ];
    let output = render(&nodes, "matcha", "-test-").unwrap();
    let expected = "// DO NOT EDIT: Code generated by matcha from -test-\n\nimport gleam/string_builder.{type StringBuilder}\n\n\n\npub fn render_builder(name name: String) -> StringBuilder {\n    let builder = string_builder.from_string(\"\")\n    let builder = string_builder.append(builder, name)\n    let builder = string_builder.append(builder, \" usage, \")\n    let builder = string_builder.append(builder, name)\n    let builder = string_builder.append(builder, \" usage\")\n\n    builder\n}\n\npub fn render(name name: String) -> String {\n    string_builder.to_string(render_builder(name: name))\n}\n\n";
    assert_eq!(output, expected);
}

#[test]
fn test_render_if_statement() {
    let nodes: Vec<Node> = vec![
        Node::ParamDeclaration(String::from("is_user"), Range { start: 3, end: 10 }, String::from("Bool")),
        Node::Text(String::from("Hello ")),
        Node::Conditional(String::from("is_user"), vec![Node::Text(String::from("User"))], vec![]),
    ];
    let output = render(&nodes, "matcha", "-test-").unwrap();
    let expected = "// DO NOT EDIT: Code generated by matcha from -test-\n\nimport gleam/string_builder.{type StringBuilder}\n\n\n\npub fn render_builder(is_user is_user: Bool) -> StringBuilder {\n    let builder = string_builder.from_string(\"\")\n    let builder = string_builder.append(builder, \"Hello \")\n    let builder = case is_user {\n        True -> {\n                let builder = string_builder.append(builder, \"User\")\n\n            builder\n        }\n        False -> {\n            \n            builder\n        }\n}\n\n    builder\n}\n\npub fn render(is_user is_user: Bool) -> String {\n    string_builder.to_string(render_builder(is_user: is_user))\n}\n\n";
    assert_eq!(output, expected);
}

#[test]
fn test_render_empty_if_statement() {
    let nodes: Vec<Node> = vec![
        Node::ParamDeclaration(String::from("is_user"), Range { start: 3, end: 10 }, String::from("Bool")),
        Node::Text(String::from("Hello ")),
        Node::Conditional(String::from("is_user"), vec![], vec![]),
    ];
    let output = render(&nodes, "matcha", "-test-").unwrap();
    let expected = "// DO NOT EDIT: Code generated by matcha from -test-\n\nimport gleam/string_builder.{type StringBuilder}\n\n\n\npub fn render_builder(is_user is_user: Bool) -> StringBuilder {\n    let builder = string_builder.from_string(\"\")\n    let builder = string_builder.append(builder, \"Hello \")\n    let builder = case is_user {\n        True -> {\n            \n            builder\n        }\n        False -> {\n            \n            builder\n        }\n}\n\n    builder\n}\n\npub fn render(is_user is_user: Bool) -> String {\n    string_builder.to_string(render_builder(is_user: is_user))\n}\n\n";
    assert_eq!(output, expected);
}

#[test]
fn test_render_if_else_statement() {
    let nodes: Vec<Node> = vec![
        Node::ParamDeclaration(String::from("is_user"), Range { start: 3, end: 10 }, String::from("Bool")),
        Node::Text(String::from("Hello ")),
        Node::Conditional(String::from("is_user"), vec![Node::Text(String::from("User"))], vec![Node::Text(String::from("Unknown"))]),
    ];
    let output = render(&nodes, "matcha", "-test-").unwrap();
    let expected = "// DO NOT EDIT: Code generated by matcha from -test-\n\nimport gleam/string_builder.{type StringBuilder}\n\n\n\npub fn render_builder(is_user is_user: Bool) -> StringBuilder {\n    let builder = string_builder.from_string(\"\")\n    let builder = string_builder.append(builder, \"Hello \")\n    let builder = case is_user {\n        True -> {\n                let builder = string_builder.append(builder, \"User\")\n\n            builder\n        }\n        False -> {\n                let builder = string_builder.append(builder, \"Unknown\")\n\n            builder\n        }\n}\n\n    builder\n}\n\npub fn render(is_user is_user: Bool) -> String {\n    string_builder.to_string(render_builder(is_user: is_user))\n}\n\n";
    assert_eq!(output, expected);
}

#[test]
fn test_render_if_comparison() {
    let nodes: Vec<Node> = vec![
        Node::Text(String::from("Hello ")),
        Node::Conditional(String::from("items != []"), vec![Node::Text(String::from("Some items"))], vec![]),
    ];
    let output = render(&nodes, "matcha", "-test-").unwrap();
    let expected = "// DO NOT EDIT: Code generated by matcha from -test-\n\nimport gleam/string_builder.{type StringBuilder}\n\n\n\npub fn render_builder() -> StringBuilder {\n    let builder = string_builder.from_string(\"\")\n    let builder = string_builder.append(builder, \"Hello \")\n    let builder = case items != [] {\n        True -> {\n                let builder = string_builder.append(builder, \"Some items\")\n\n            builder\n        }\n        False -> {\n            \n            builder\n        }\n}\n\n    builder\n}\n\npub fn render() -> String {\n    string_builder.to_string(render_builder())\n}\n\n";
    assert_eq!(output, expected);
}

#[test]
fn test_render_nested_if_statements() {
    let nodes: Vec<Node> = vec![
        Node::ParamDeclaration(String::from("is_user"), Range { start: 3, end: 10 }, String::from("Bool")),
        Node::ParamDeclaration(String::from("is_admin"), Range { start: 24, end: 32 }, String::from("Bool")),
        Node::Text(String::from("Hello ")),
        Node::Conditional(String::from("is_user"), vec![Node::Conditional(String::from("is_admin"), vec![Node::Text(String::from("Admin"))], vec![Node::Text(String::from("User"))])], vec![]),
    ];
    let output = render(&nodes, "matcha", "-test-").unwrap();
    let expected = "// DO NOT EDIT: Code generated by matcha from -test-\n\nimport gleam/string_builder.{type StringBuilder}\n\n\n\npub fn render_builder(is_user is_user: Bool, is_admin is_admin: Bool) -> StringBuilder {\n    let builder = string_builder.from_string(\"\")\n    let builder = string_builder.append(builder, \"Hello \")\n    let builder = case is_user {\n        True -> {\n                let builder = case is_admin {\n        True -> {\n                let builder = string_builder.append(builder, \"Admin\")\n\n            builder\n        }\n        False -> {\n                let builder = string_builder.append(builder, \"User\")\n\n            builder\n        }\n}\n\n            builder\n        }\n        False -> {\n            \n            builder\n        }\n}\n\n    builder\n}\n\npub fn render(is_user is_user: Bool, is_admin is_admin: Bool) -> String {\n    string_builder.to_string(render_builder(is_user: is_user, is_admin: is_admin))\n}\n\n";
    assert_eq!(output, expected);
}

#[test]
fn test_render_for_loop() {
    let nodes: Vec<Node> = vec![
        Node::ParamDeclaration(String::from("list"), Range { start: 3, end: 7 }, String::from("List(String)")),
        Node::Text(String::from("Hello,")),
        Node::Loop(String::from("item"), None, String::from("list"), vec![Node::Text(String::from(" to ")), Node::Expression(String::from("item")), Node::Text(String::from(" and "))]),
        Node::Text(String::from(" everyone else")),
    ];
    let output = render(&nodes, "matcha", "-test-").unwrap();
    let expected = "// DO NOT EDIT: Code generated by matcha from -test-\n\nimport gleam/string_builder.{type StringBuilder}\nimport gleam/list\n\n\n\npub fn render_builder(list list: List(String)) -> StringBuilder {\n    let builder = string_builder.from_string(\"\")\n    let builder = string_builder.append(builder, \"Hello,\")\n    let builder = list.fold(list, builder, fn(builder, item) {\n            let builder = string_builder.append(builder, \" to \")\n    let builder = string_builder.append(builder, item)\n    let builder = string_builder.append(builder, \" and \")\n\n        builder\n})\n    let builder = string_builder.append(builder, \" everyone else\")\n\n    builder\n}\n\npub fn render(list list: List(String)) -> String {\n    string_builder.to_string(render_builder(list: list))\n}\n\n";
    assert_eq!(output, expected);
}

#[test]
fn test_render_for_as_loop() {
    let nodes: Vec<Node> = vec![
        Node::ParamDeclaration(String::from("list"), Range { start: 3, end: 7 }, String::from("List(Item)")),
        Node::Text(String::from("Hello,")),
        Node::Loop(String::from("item"), Some(String::from("Item")), String::from("list"), vec![Node::Text(String::from(" to ")), Node::Expression(String::from("item")), Node::Text(String::from(" and "))]),
        Node::Text(String::from(" everyone else")),
    ];
    let output = render(&nodes, "matcha", "-test-").unwrap();
    let expected = "// DO NOT EDIT: Code generated by matcha from -test-\n\nimport gleam/string_builder.{type StringBuilder}\nimport gleam/list\n\n\n\npub fn render_builder(list list: List(Item)) -> StringBuilder {\n    let builder = string_builder.from_string(\"\")\n    let builder = string_builder.append(builder, \"Hello,\")\n    let builder = list.fold(list, builder, fn(builder, item: Item) {\n            let builder = string_builder.append(builder, \" to \")\n    let builder = string_builder.append(builder, item)\n    let builder = string_builder.append(builder, \" and \")\n\n        builder\n})\n    let builder = string_builder.append(builder, \" everyone else\")\n\n    builder\n}\n\npub fn render(list list: List(Item)) -> String {\n    string_builder.to_string(render_builder(list: list))\n}\n\n";
    assert_eq!(output, expected);
}

#[test]
fn test_render_for_from_expression() {
    let nodes: Vec<Node> = vec![
        Node::Text(String::from("Hello ")),
        Node::Loop(String::from("item"), Some(String::from("Item")), String::from("list.take(list, 2)"), vec![Node::Expression(String::from("item"))]),
    ];
    let output = render(&nodes, "matcha", "-test-").unwrap();
    let expected = "// DO NOT EDIT: Code generated by matcha from -test-\n\nimport gleam/string_builder.{type StringBuilder}\nimport gleam/list\n\n\n\npub fn render_builder() -> StringBuilder {\n    let builder = string_builder.from_string(\"\")\n    let builder = string_builder.append(builder, \"Hello \")\n    let builder = list.fold(list.take(list, 2), builder, fn(builder, item: Item) {\n            let builder = string_builder.append(builder, item)\n\n        builder\n})\n\n    builder\n}\n\npub fn render() -> String {\n    string_builder.to_string(render_builder())\n}\n\n";
    assert_eq!(output, expected);
}

#[test]
fn test_render_dot_access() {
    let nodes: Vec<Node> = vec![
        Node::ParamDeclaration(String::from("user"), Range { start: 3, end: 7 }, String::from("MyUser")),
        Node::Text(String::from("Hello")),
        Node::Conditional(String::from("user.is_admin"), vec![Node::Text(String::from(" Admin"))], vec![]),
    ];
    let output = render(&nodes, "matcha", "-test-").unwrap();
    let expected = "// DO NOT EDIT: Code generated by matcha from -test-\n\nimport gleam/string_builder.{type StringBuilder}\n\n\n\npub fn render_builder(user user: MyUser) -> StringBuilder {\n    let builder = string_builder.from_string(\"\")\n    let builder = string_builder.append(builder, \"Hello\")\n    let builder = case user.is_admin {\n        True -> {\n                let builder = string_builder.append(builder, \" Admin\")\n\n            builder\n        }\n        False -> {\n            \n            builder\n        }\n}\n\n    builder\n}\n\npub fn render(user user: MyUser) -> String {\n    string_builder.to_string(render_builder(user: user))\n}\n\n";
    assert_eq!(output, expected);
}

#[test]
fn test_render_import() {
    let nodes: Vec<Node> = vec![
        Node::Import(String::from("user.{User}")),
        Node::ParamDeclaration(String::from("name"), Range { start: 22, end: 26 }, String::from("String")),
        Node::Expression(String::from("name")),
    ];
    let output = render(&nodes, "matcha", "-test-").unwrap();
    let expected = "// DO NOT EDIT: Code generated by matcha from -test-\n\nimport gleam/string_builder.{type StringBuilder}\n\nimport user.{User}\n\npub fn render_builder(name name: String) -> StringBuilder {\n    let builder = string_builder.from_string(\"\")\n    let builder = string_builder.append(builder, name)\n\n    builder\n}\n\npub fn render(name name: String) -> String {\n    string_builder.to_string(render_builder(name: name))\n}\n\n";
    assert_eq!(output, expected);
}

#[test]
fn test_render_with() {
    let nodes: Vec<Node> = vec![
        Node::ParamDeclaration(String::from("user"), Range { start: 3, end: 7 }, String::from("User")),
        Node::Expression(String::from("user")),
    ];
    let output = render(&nodes, "matcha", "-test-").unwrap();
    let expected = "// DO NOT EDIT: Code generated by matcha from -test-\n\nimport gleam/string_builder.{type StringBuilder}\n\n\n\npub fn render_builder(user user: User) -> StringBuilder {\n    let builder = string_builder.from_string(\"\")\n    let builder = string_builder.append(builder, user)\n\n    builder\n}\n\npub fn render(user user: User) -> String {\n    string_builder.to_string(render_builder(user: user))\n}\n\n";
    assert_eq!(output, expected);
}

#[test]
fn test_render_import_and_with() {
    let nodes: Vec<Node> = vec![
        Node::Import(String::from("user.{User}")),
        Node::ParamDeclaration(String::from("user"), Range { start: 22, end: 26 }, String::from("User")),
        Node::Expression(String::from("user")),
    ];
    let output = render(&nodes, "matcha", "-test-").unwrap();
    let expected = "// DO NOT EDIT: Code generated by matcha from -test-\n\nimport gleam/string_builder.{type StringBuilder}\n\nimport user.{User}\n\npub fn render_builder(user user: User) -> StringBuilder {\n    let builder = string_builder.from_string(\"\")\n    let builder = string_builder.append(builder, user)\n\n    builder\n}\n\npub fn render(user user: User) -> String {\n    string_builder.to_string(render_builder(user: user))\n}\n\n";
    assert_eq!(output, expected);
}

#[test]
fn test_render_multiline() {
    let nodes: Vec<Node> = vec![
        Node::ParamDeclaration(String::from("my_list"), Range { start: 3, end: 10 }, String::from("List(String)")),
        Node::Text(String::from("<ul>\n")),
        Node::Loop(String::from("entry"), None, String::from("my_list"), vec![Node::Text(String::from("\n    <li>")), Node::Expression(String::from("entry")), Node::Text(String::from("</li>\n"))]),
        Node::Text(String::from("\n</ul>")),
    ];
    let output = render(&nodes, "matcha", "-test-").unwrap();
    let expected = "// DO NOT EDIT: Code generated by matcha from -test-\n\nimport gleam/string_builder.{type StringBuilder}\nimport gleam/list\n\n\n\npub fn render_builder(my_list my_list: List(String)) -> StringBuilder {\n    let builder = string_builder.from_string(\"\")\n    let builder = string_builder.append(builder, \"<ul>\n\")\n    let builder = list.fold(my_list, builder, fn(builder, entry) {\n            let builder = string_builder.append(builder, \"\n    <li>\")\n    let builder = string_builder.append(builder, entry)\n    let builder = string_builder.append(builder, \"</li>\n\")\n\n        builder\n})\n    let builder = string_builder.append(builder, \"\n</ul>\")\n\n    builder\n}\n\npub fn render(my_list my_list: List(String)) -> String {\n    string_builder.to_string(render_builder(my_list: my_list))\n}\n\n";
    assert_eq!(output, expected);
}

#[test]
fn test_render_quotes() {
    let nodes: Vec<Node> = vec![
        Node::ParamDeclaration(String::from("name"), Range { start: 3, end: 7 }, String::from("String")),
        Node::Text(String::from("<div class=\"my-class\">")),
        Node::Expression(String::from("name")),
        Node::Text(String::from("</div>")),
    ];
    let output = render(&nodes, "matcha", "-test-").unwrap();
    let expected = "// DO NOT EDIT: Code generated by matcha from -test-\n\nimport gleam/string_builder.{type StringBuilder}\n\n\n\npub fn render_builder(name name: String) -> StringBuilder {\n    let builder = string_builder.from_string(\"\")\n    let builder = string_builder.append(builder, \"<div class=\\\"my-class\\\">\")\n    let builder = string_builder.append(builder, name)\n    let builder = string_builder.append(builder, \"</div>\")\n\n    builder\n}\n\npub fn render(name name: String) -> String {\n    string_builder.to_string(render_builder(name: name))\n}\n\n";
    assert_eq!(output, expected);
}

#[test]
fn test_render_builder_block() {
    let nodes: Vec<Node> = vec![
        Node::ParamDeclaration(String::from("name"), Range { start: 3, end: 7 }, String::from("StringBuilder")),
        Node::Text(String::from("Hello ")),
        Node::BuilderExpression(String::from("name")),
        Node::Text(String::from(", good to meet you")),
    ];
    let output = render(&nodes, "matcha", "-test-").unwrap();
    let expected = "// DO NOT EDIT: Code generated by matcha from -test-\n\nimport gleam/string_builder.{type StringBuilder}\n\n\n\npub fn render_builder(name name: StringBuilder) -> StringBuilder {\n    let builder = string_builder.from_string(\"\")\n    let builder = string_builder.append(builder, \"Hello \")\n    let builder = string_builder.append_builder(builder, name)\n    let builder = string_builder.append(builder, \", good to meet you\")\n\n    builder\n}\n\npub fn render(name name: StringBuilder) -> String {\n    string_builder.to_string(render_builder(name: name))\n}\n\n";
    assert_eq!(output, expected);
}

#[test]
fn test_render_builder_expression() {
    let nodes: Vec<Node> = vec![
        Node::Text(String::from("Hello ")),
        Node::BuilderExpression(String::from("string_builder.from_strings([\"Anna\", \" and \", \"Bob\"])")),
        Node::Text(String::from(", good to meet you")),
    ];
    let output = render(&nodes, "matcha", "-test-").unwrap();
    let expected = "// DO NOT EDIT: Code generated by matcha from -test-\n\nimport gleam/string_builder.{type StringBuilder}\n\n\n\npub fn render_builder() -> StringBuilder {\n    let builder = string_builder.from_string(\"\")\n    let builder = string_builder.append(builder, \"Hello \")\n    let builder = string_builder.append_builder(builder, string_builder.from_strings([\"Anna\", \" and \", \"Bob\"]))\n    let builder = string_builder.append(builder, \", good to meet you\")\n\n    builder\n}\n\npub fn render() -> String {\n    string_builder.to_string(render_builder())\n}\n\n";
    assert_eq!(output, expected);
}

#[test]
fn test_render_function() {
    let nodes: Vec<Node> = vec![
        Node::FunctionDefinition(Visibility::Private, String::from("classes()"), vec![Node::Text(String::from("a b c d\n"))], Range { start: 0, end: 14 }),
        Node::Text(String::from("Hello world")),
    ];
    let output = render(&nodes, "matcha", "-test-").unwrap();
    let expected = "// DO NOT EDIT: Code generated by matcha from -test-\n\nimport gleam/string_builder.{type StringBuilder}\n\nfn classes() -> StringBuilder {\n    let builder = string_builder.from_string(\"\")\n    let builder = string_builder.append(builder, \"a b c d\n\")\n\n    builder\n}\n\npub fn render_builder() -> StringBuilder {\n    let builder = string_builder.from_string(\"\")\n    let builder = string_builder.append(builder, \"Hello world\")\n\n    builder\n}\n\npub fn render() -> String {\n    string_builder.to_string(render_builder())\n}\n\n";
    assert_eq!(output, expected);
}

#[test]
fn test_render_public_function() {
    let nodes: Vec<Node> = vec![
        Node::FunctionDefinition(Visibility::Public, String::from("classes()"), vec![Node::Text(String::from("a b c d\n"))], Range { start: 0, end: 18 }),
        Node::Text(String::from("Hello world")),
    ];
    let output = render(&nodes, "matcha", "-test-").unwrap();
    let expected = "// DO NOT EDIT: Code generated by matcha from -test-\n\nimport gleam/string_builder.{type StringBuilder}\n\npub fn classes() -> StringBuilder {\n    let builder = string_builder.from_string(\"\")\n    let builder = string_builder.append(builder, \"a b c d\n\")\n\n    builder\n}\n\npub fn render_builder() -> StringBuilder {\n    let builder = string_builder.from_string(\"\")\n    let builder = string_builder.append(builder, \"Hello world\")\n\n    builder\n}\n\npub fn render() -> String {\n    string_builder.to_string(render_builder())\n}\n\n";
    assert_eq!(output, expected);
}

#[test]
fn test_render_only_public_functions() {
    let nodes: Vec<Node> = vec![
        Node::Text(String::from("\n")),
        Node::FunctionDefinition(Visibility::Public, String::from("classes()"), vec![Node::Text(String::from("    a b c d\n"))], Range { start: 1, end: 19 }),
        Node::Text(String::from("\n")),
        Node::FunctionDefinition(Visibility::Public, String::from("item(name: String)"), vec![Node::Text(String::from("    <li class=\"item\">")), Node::Expression(String::from("name")), Node::Text(String::from("</li>\n"))], Range { start: 33, end: 60 }),
        Node::Text(String::from("\n")),
    ];
    let output = render(&nodes, "matcha", "-test-").unwrap();
    let expected = "// DO NOT EDIT: Code generated by matcha from -test-\n\nimport gleam/string_builder.{type StringBuilder}\n\npub fn classes() -> StringBuilder {\n    let builder = string_builder.from_string(\"\")\n    let builder = string_builder.append(builder, \"    a b c d\n\")\n\n    builder\n}\n\npub fn item(name: String) -> StringBuilder {\n    let builder = string_builder.from_string(\"\")\n    let builder = string_builder.append(builder, \"    <li class=\\\"item\\\">\")\n    let builder = string_builder.append(builder, name)\n    let builder = string_builder.append(builder, \"</li>\n\")\n\n    builder\n}\n\n";
    assert_eq!(output, expected);
}

#[test]
fn test_render_function_and_usage() {
    let nodes: Vec<Node> = vec![
        Node::FunctionDefinition(Visibility::Private, String::from("name()"), vec![Node::Text(String::from("Lucy\n"))], Range { start: 0, end: 11 }),
        Node::Text(String::from("Hello ")),
        Node::BuilderExpression(String::from("name()")),
    ];
    let output = render(&nodes, "matcha", "-test-").unwrap();
    let expected = "// DO NOT EDIT: Code generated by matcha from -test-\n\nimport gleam/string_builder.{type StringBuilder}\n\nfn name() -> StringBuilder {\n    let builder = string_builder.from_string(\"\")\n    let builder = string_builder.append(builder, \"Lucy\n\")\n\n    builder\n}\n\npub fn render_builder() -> StringBuilder {\n    let builder = string_builder.from_string(\"\")\n    let builder = string_builder.append(builder, \"Hello \")\n    let builder = string_builder.append_builder(builder, name())\n\n    builder\n}\n\npub fn render() -> String {\n    string_builder.to_string(render_builder())\n}\n\n";
    assert_eq!(output, expected);
}

#[test]
fn test_render_function_with_arg_and_usage() {
    let nodes: Vec<Node> = vec![
        Node::FunctionDefinition(Visibility::Private, String::from("full_name(second_name: String)"), vec![Node::Text(String::from("Lucy ")), Node::Expression(String::from("second_name")), Node::Text(String::from("\n"))], Range { start: 0, end: 35 }),
        Node::Text(String::from("Hello ")),
        Node::BuilderExpression(String::from("full_name(\"Gleam\")")),
    ];
    let output = render(&nodes, "matcha", "-test-").unwrap();
    let expected = "// DO NOT EDIT: Code generated by matcha from -test-\n\nimport gleam/string_builder.{type StringBuilder}\n\nfn full_name(second_name: String) -> StringBuilder {\n    let builder = string_builder.from_string(\"\")\n    let builder = string_builder.append(builder, \"Lucy \")\n    let builder = string_builder.append(builder, second_name)\n    let builder = string_builder.append(builder, \"\n\")\n\n    builder\n}\n\npub fn render_builder() -> StringBuilder {\n    let builder = string_builder.from_string(\"\")\n    let builder = string_builder.append(builder, \"Hello \")\n    let builder = string_builder.append_builder(builder, full_name(\"Gleam\"))\n\n    builder\n}\n\npub fn render() -> String {\n    string_builder.to_string(render_builder())\n}\n\n";
    assert_eq!(output, expected);
}

#[test]
fn test_render_function_with_for_loop() {
    let nodes: Vec<Node> = vec![
        Node::FunctionDefinition(Visibility::Private, String::from("full_name(names: List(String))"), vec![Node::Loop(String::from("name"), None, String::from("names"), vec![Node::Expression(String::from("name")), Node::Text(String::from(","))]), Node::Text(String::from("\"\n"))], Range { start: 0, end: 35 }),
        Node::Text(String::from("Hello ")),
        Node::BuilderExpression(String::from("names(\"Gleam\")")),
    ];
    let output = render(&nodes, "matcha", "-test-").unwrap();
    let expected = "// DO NOT EDIT: Code generated by matcha from -test-\n\nimport gleam/string_builder.{type StringBuilder}\nimport gleam/list\n\nfn full_name(names: List(String)) -> StringBuilder {\n    let builder = string_builder.from_string(\"\")\n    let builder = list.fold(names, builder, fn(builder, name) {\n            let builder = string_builder.append(builder, name)\n    let builder = string_builder.append(builder, \",\")\n\n        builder\n})\n    let builder = string_builder.append(builder, \"\\\"\n\")\n\n    builder\n}\n\npub fn render_builder() -> StringBuilder {\n    let builder = string_builder.from_string(\"\")\n    let builder = string_builder.append(builder, \"Hello \")\n    let builder = string_builder.append_builder(builder, names(\"Gleam\"))\n\n    builder\n}\n\npub fn render() -> String {\n    string_builder.to_string(render_builder())\n}\n\n";
    assert_eq!(output, expected);
}
