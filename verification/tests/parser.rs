use surn::ast::ops::{AnyOperation, BinOp};
use surn::ast::types::{BuiltInType, TypeKind};
use surn::ast::{Expression, NodeKind, Statement, Visibility};
use surn::lexer::tokenizer::tokenize;
use surn::parser::context::SourceOrigin;
use surn::parser::generator::AstGenerator;
use surn::parser::{Parser, ParserError};
use surn::util::TokenStream;
use surn::CompilerOptions;

fn options() -> CompilerOptions {
    let mut options = CompilerOptions::dev();
    options.semantic_checks = false;
    options
}

fn parse(source: &str) -> Result<Vec<NodeKind>, ParserError> {
    let mut parser = Parser::new(options());
    let body = parser.parse_script("test.surn".to_string(), source.to_string())?;
    Ok(body.get_program().iter().map(|n| n.inner()).collect())
}

fn statement(source: &str) -> Statement {
    let nodes = parse(source).expect("the source parses");
    assert_eq!(nodes.len(), 1);
    match &nodes[0] {
        NodeKind::Statement(s) => s.clone(),
        other => panic!("not a statement: {:?}", other),
    }
}

fn expression(source: &str) -> Expression {
    let nodes = parse(source).expect("the source parses");
    assert_eq!(nodes.len(), 1);
    match &nodes[0] {
        NodeKind::Expression(e) => e.clone(),
        other => panic!("not an expression: {:?}", other),
    }
}

fn literal(e: &Expression) -> String {
    match e {
        Expression::Literal(l) => l.value.clone(),
        other => panic!("not a literal: {:?}", other),
    }
}

#[test]
fn var_with_value() {
    match statement("var x = 5;") {
        Statement::Var(v) => {
            assert_eq!(v.name, "x");
            assert!(v.ty.is_none());
            assert_eq!(literal(v.assignment.as_ref().unwrap()), "5");
            assert!(!v.is_uninit());
            assert!(matches!(v.visibility, Visibility::Private));
            assert_eq!(v.node_id, 0);
        }
        other => panic!("not a var: {:?}", other),
    }
}

#[test]
fn var_without_value() {
    match statement("var x;") {
        Statement::Var(v) => {
            assert_eq!(v.name, "x");
            assert!(v.is_uninit());
        }
        other => panic!("not a var: {:?}", other),
    }
}

#[test]
fn public_var() {
    match statement("pub var x: Foo;") {
        Statement::Var(v) => {
            assert!(matches!(v.visibility, Visibility::Public));
            match v.ty {
                Some(TypeKind::Reference(r)) => {
                    assert_eq!(r.name, "Foo");
                    assert!(r.params.is_none());
                }
                other => panic!("not a reference: {:?}", other),
            }
        }
        other => panic!("not a var: {:?}", other),
    }
}

#[test]
fn const_with_union_type() {
    match statement("const y: int | string = \"a\";") {
        Statement::Const(v) => {
            assert_eq!(v.name, "y");
            match v.ty {
                Some(TypeKind::Union(u)) => {
                    assert_eq!(u.types.len(), 2);
                    assert!(matches!(u.types[0], TypeKind::BuiltIn(BuiltInType::Int)));
                    assert!(matches!(u.types[1], TypeKind::BuiltIn(BuiltInType::String)));
                }
                other => panic!("not a union: {:?}", other),
            }
            assert_eq!(literal(v.assignment.as_ref().unwrap()), "a");
        }
        other => panic!("not a const: {:?}", other),
    }
}

#[test]
fn generic_type() {
    match statement("var m: Map<string, Foo>;") {
        Statement::Var(v) => match v.ty {
            Some(TypeKind::Reference(r)) => {
                assert_eq!(r.name, "Map");
                let params = r.params.unwrap();
                assert_eq!(params.len(), 2);
                assert!(matches!(params[0].kind, TypeKind::BuiltIn(BuiltInType::String)));
                assert!(matches!(params[1].kind, TypeKind::Reference(_)));
            }
            other => panic!("not a reference: {:?}", other),
        },
        other => panic!("not a var: {:?}", other),
    }
}

#[test]
fn namespace_path() {
    match statement("namespace a\\b\\c;") {
        Statement::Namespace(n) => {
            assert_eq!(n.path.name, "a");
            let parts: Vec<String> = n.path.parts.iter().map(|p| p.name.clone()).collect();
            assert_eq!(parts, vec!["b".to_string(), "c".to_string()]);
            assert!(n.path.parts.iter().all(|p| p.parts.is_empty()));
            assert!(n.body.is_none());
        }
        other => panic!("not a namespace: {:?}", other),
    }
}

#[test]
fn namespace_with_block() {
    match statement("namespace a { var x = 1; };") {
        Statement::Namespace(n) => {
            assert_eq!(n.path.name, "a");
            match n.body.as_deref() {
                Some(Statement::Block(items)) => {
                    assert_eq!(items.len(), 1);
                    assert!(matches!(items[0], Expression::Statement(_)));
                }
                other => panic!("not a block: {:?}", other),
            }
        }
        other => panic!("not a namespace: {:?}", other),
    }
}

#[test]
fn namespace_block_needs_semicolon() {
    let e = parse("namespace a { } var").unwrap_err();
    assert_eq!(e.reason, "A semi-colon was expected.");
}

#[test]
fn function_with_inputs() {
    match statement("function foo(x: int, y: int): int { }") {
        Statement::Function(f) => {
            assert_eq!(f.name.as_deref(), Some("foo"));
            assert_eq!(f.inputs.len(), 2);
            assert_eq!(f.inputs[0].name, "x");
            assert_eq!(f.inputs[1].name, "y");
            assert!(matches!(f.inputs[0].ty, Some(TypeKind::BuiltIn(BuiltInType::Int))));
            assert!(matches!(f.inputs[1].ty, Some(TypeKind::BuiltIn(BuiltInType::Int))));
            assert!(matches!(f.outputs, Some(TypeKind::BuiltIn(BuiltInType::Int))));
            assert!(matches!(f.visibility, Visibility::Public));
            assert!(matches!(f.body.as_ref(), Statement::Block(items) if items.is_empty()));
        }
        other => panic!("not a function: {:?}", other),
    }
}

#[test]
fn function_without_name() {
    match statement("function () { return 1; }") {
        Statement::Function(f) => {
            assert!(f.name.is_none());
            assert!(f.outputs.is_none());
            match f.body.as_ref() {
                Statement::Block(items) => {
                    assert_eq!(items.len(), 1);
                    match &items[0] {
                        Expression::Statement(s) => match s.as_ref() {
                            Statement::Return(r) => {
                                assert_eq!(literal(r.expression.as_ref().unwrap()), "1")
                            }
                            other => panic!("not a return: {:?}", other),
                        },
                        other => panic!("not a statement: {:?}", other),
                    }
                }
                other => panic!("not a block: {:?}", other),
            }
        }
        other => panic!("not a function: {:?}", other),
    }
}

#[test]
fn block_items() {
    match statement("function f() { var a = 1; ; return ; }") {
        Statement::Function(f) => match f.body.as_ref() {
            Statement::Block(items) => {
                assert_eq!(items.len(), 2);
                assert!(matches!(items[0], Expression::Statement(_)));
                assert!(matches!(items[1], Expression::EndOfLine));
            }
            other => panic!("not a block: {:?}", other),
        },
        other => panic!("not a function: {:?}", other),
    }
}

#[test]
fn unterminated_array() {
    let e = parse("[1, 2,").unwrap_err();
    assert_eq!(e.reason, "Array's must be closed.");
    assert!(e.reason.to_lowercase().contains("array"));
    assert!(e.reason.contains("must be closed"));
    assert_eq!(e.location, 6..6);
    assert!(e.ast.get_program().is_empty());
}

#[test]
fn unterminated_array_after_element() {
    let e = parse("[1, 2").unwrap_err();
    assert_eq!(e.reason, "Array's must be closed.");
}

#[test]
fn array_of_literals() {
    match expression("[1, 2, 3]") {
        Expression::Array(a) => {
            let values: Vec<String> = a.values.iter().map(literal).collect();
            assert_eq!(values, vec!["1", "2", "3"]);
        }
        other => panic!("not an array: {:?}", other),
    }
}

#[test]
fn array_needs_commas() {
    let e = parse("[1 2]").unwrap_err();
    assert_eq!(e.reason, "A comma is expected here.");
    assert_eq!(e.location, 3..4);
}

#[test]
fn operators_nest_to_the_right() {
    match expression("1 + 2 * 3") {
        Expression::Operation(outer) => {
            assert_eq!(literal(&outer.left), "1");
            assert_eq!(outer.op, AnyOperation::BinOp(BinOp::Plus));
            match outer.right.as_ref() {
                Expression::Operation(inner) => {
                    assert_eq!(literal(&inner.left), "2");
                    assert_eq!(inner.op, AnyOperation::BinOp(BinOp::Star));
                    assert_eq!(literal(&inner.right), "3");
                }
                other => panic!("not an operation: {:?}", other),
            }
        }
        other => panic!("not an operation: {:?}", other),
    }
}

#[test]
fn operators_nest_to_the_right_whatever_they_are() {
    match expression("1 * 2 + 3") {
        Expression::Operation(outer) => {
            assert_eq!(outer.op, AnyOperation::BinOp(BinOp::Star));
            match outer.right.as_ref() {
                Expression::Operation(inner) => {
                    assert_eq!(inner.op, AnyOperation::BinOp(BinOp::Plus));
                }
                other => panic!("not an operation: {:?}", other),
            }
        }
        other => panic!("not an operation: {:?}", other),
    }
}

#[test]
fn unknown_operator() {
    let e = parse("1 and 2").unwrap_err();
    assert_eq!(e.reason, "Unknown operator: and");
    assert_eq!(e.message, "and");
    assert_eq!(e.location, 2..5);
}

#[test]
fn call_with_arguments() {
    match expression("foo(1, bar(2))") {
        Expression::Call(c) => {
            assert_eq!(c.name, "foo");
            assert_eq!(c.arguments.len(), 2);
            assert!(matches!(&c.arguments[1], Expression::Call(inner) if inner.name == "bar"));
        }
        other => panic!("not a call: {:?}", other),
    }
}

#[test]
fn unterminated_call() {
    let e = parse("foo(1, ").unwrap_err();
    assert_eq!(e.reason, "Function arguments must be closed.");
}

#[test]
fn member_access() {
    match expression("a.b") {
        Expression::Member(m) => {
            assert_eq!(m.origin.value().as_deref(), Some("a"));
            assert_eq!(literal(&m.name), "b");
            assert!(matches!(m.lookup, surn::ast::MemberLookup::Dynamic));
        }
        other => panic!("not a member: {:?}", other),
    }
    match expression("A::b") {
        Expression::Member(m) => {
            assert!(matches!(m.lookup, surn::ast::MemberLookup::Static));
        }
        other => panic!("not a member: {:?}", other),
    }
}

#[test]
fn new_call() {
    match expression("new Foo(1)") {
        Expression::New(n) => {
            assert_eq!(n.name, "Foo");
            assert_eq!(n.arguments.len(), 1);
        }
        other => panic!("not an instantiation: {:?}", other),
    }
    let e = parse("new 1").unwrap_err();
    assert_eq!(e.reason, "A name was expected here.");
}

#[test]
fn object_literal() {
    match expression("{ a: 1, b: \"x\" }") {
        Expression::Object(o) => {
            assert_eq!(o.properties.len(), 2);
            assert_eq!(o.properties[0].name, "a");
            assert_eq!(literal(&o.properties[1].value), "x");
        }
        other => panic!("not an object: {:?}", other),
    }
    let e = parse("{ a: 1").unwrap_err();
    assert_eq!(e.reason, "Object body must be closed.");
}

#[test]
fn class_with_members() {
    let source = "class A extends B implements C, D { x: int = 1; function f() { } pub static y; }";
    match statement(source) {
        Statement::Class(c) => {
            assert_eq!(c.name, "A");
            assert_eq!(c.extends.as_deref(), Some("B"));
            assert_eq!(c.implements, Some(vec!["C".to_string(), "D".to_string()]));
            assert_eq!(c.node_id, 1);
            assert_eq!(c.body.properties.len(), 1);
            assert_eq!(c.body.properties[0].name, "x");
            assert_eq!(c.body.methods.len(), 1);
            assert_eq!(c.body.other.len(), 1);
            match &c.body.other[0] {
                surn::ast::ClassAllowedStatement::Static(inner) => match inner.as_ref() {
                    surn::ast::ClassAllowedStatement::Property(p) => {
                        assert_eq!(p.name, "y");
                        assert!(matches!(p.visibility, Visibility::Public));
                    }
                    other => panic!("not a property: {:?}", other),
                },
                other => panic!("not static: {:?}", other),
            }
        }
        other => panic!("not a class: {:?}", other),
    }
}

#[test]
fn empty_class_body_is_closed() {
    match statement("class A {}") {
        Statement::Class(c) => {
            assert!(c.body.properties.is_empty());
            assert!(c.extends.is_none());
            assert!(c.implements.is_none());
        }
        other => panic!("not a class: {:?}", other),
    }
}

#[test]
fn static_statement() {
    match statement("static var x;") {
        Statement::Static(s) => {
            assert!(matches!(s.visibility, Visibility::Private));
            assert!(s.statement.is_mutable());
        }
        other => panic!("not static: {:?}", other),
    }
}

#[test]
fn several_nodes_with_ranges() {
    let mut parser = Parser::new(options());
    let body = parser
        .parse_script("test.surn".to_string(), "var x = 5;\n// note\nfoo() ".to_string())
        .unwrap();
    let program = body.get_program();
    assert_eq!(program.len(), 2);
    assert_eq!(program[0].range(), 0..10);
    assert!(matches!(program[0].inner(), NodeKind::Statement(Statement::Var(_))));
    assert_eq!(program[1].range(), 19..25);
    assert!(matches!(program[1].inner(), NodeKind::Expression(Expression::Call(_))));
}

#[test]
fn semicolon_is_no_node() {
    let e = parse("foo();").unwrap_err();
    assert_eq!(e.reason, "Missing a valid statement or expression in global scope.");
    assert_eq!(e.location, 5..6);
    assert_eq!(e.ast.get_program().len(), 1);
}

#[test]
fn keyword_before_punctuation_is_a_name() {
    match statement("function f() { return; }") {
        Statement::Function(f) => match f.body.as_ref() {
            Statement::Block(items) => {
                assert_eq!(items.len(), 2);
                assert_eq!(literal(&items[0]), "return");
                assert!(matches!(items[1], Expression::EndOfLine));
            }
            other => panic!("not a block: {:?}", other),
        },
        other => panic!("not a function: {:?}", other),
    }
}

#[test]
fn unexpected_token_keeps_the_nodes_before_it() {
    let e = parse("var x = 5; )").unwrap_err();
    assert_eq!(e.reason, "Missing a valid statement or expression in global scope.");
    assert_eq!(e.location, 11..12);
    assert_eq!(e.ast.get_program().len(), 1);
    assert!(e.extra.is_none());
}

#[test]
fn missing_name() {
    let e = parse("var = 5;").unwrap_err();
    assert_eq!(e.reason, "Unexpected token: \"Operator\"");
    assert_eq!(e.message, "A name must follow a variable declaration");
    assert_eq!(e.location, 4..5);
}

#[test]
fn input_that_ends_too_early() {
    let e = parse("var x = ").unwrap_err();
    assert_eq!(e.reason, "An expression was expected but none was found.");
    assert_eq!(e.location, 7..8);
    let e = parse("var ").unwrap_err();
    assert_eq!(e.reason, "A variable name was expected but none was found.");
}

#[test]
fn empty_and_blank_sources() {
    assert!(parse("").unwrap().is_empty());
    assert!(parse("  \n\t").unwrap().is_empty());
    assert!(parse("// nothing here").unwrap().is_empty());
}

#[test]
fn begin_parse_on_a_stream() {
    let source = "var x = 5;";
    let origin = SourceOrigin::new_virtual("t".to_string(), source.to_string());
    let mut generator = AstGenerator::new(origin, 1);
    let body = generator.begin_parse(TokenStream::new(tokenize(source))).unwrap();
    assert_eq!(body.get_program().len(), 1);
}

#[test]
fn checks_before_parsing() {
    let mut parser = Parser::new(CompilerOptions::dev());
    let e = parser.parse_script("t".to_string(), "foo(".to_string()).unwrap_err();
    assert_eq!(e.reason, "Error running checks.");
    assert_eq!(e.message, "Error! Parenthesis at 3..4 is never closed!");
    assert!(parser.has_room());
}
