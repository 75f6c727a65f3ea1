use surn::ast::ops::{AnyOperation, AssignmentOp, BinOp, ComparisonOp, LogicalOp};
use surn::ast::types::{
    BuiltInType, RuntimeType, StrictBuiltInType, TypeDefinition, TypeKind, TypeParam,
    TypeReference, TypeRef, TypeStore, TypeUnion,
};
use surn::ast::{
    Array, AstBody, Call, Class, ClassAllowedStatement, ClassBody, ClassProperty, Expression,
    Function, FunctionInput, Literal, MemberListNode, MemberLookup, Namespace, NewCall, Node,
    NodeKind, Object, ObjectProperty, Operation, Path, Return, Statement, Static, Variable,
    Visibility,
};
use surn::lexer::keyword::KeyWord;
use surn::lexer::pos::cursor::Cursor;
use surn::lexer::token::{Token, TokenType};
use surn::parser::context::{Context, ContextStore, SourceMap, SourceOrigin};
use surn::parser::generator::combine_ranges;
use surn::parser::{Parser, ParserError};
use surn::transpiler::defaults::php::PhpGenerator;
use surn::transpiler::format::{BraceType, FormatOptions};
use surn::transpiler::langs::{ApiVersion, Generator};
use surn::transpiler::Transpiler;
use surn::CompilerOptions;

fn lit(text: &str) -> Expression {
    Expression::Literal(Literal::new(text.to_string(), None))
}

#[test]
fn operators_by_spelling() {
    let expect = [
        ("=", AnyOperation::AssignmentOp(AssignmentOp::Eq)),
        ("+=", AnyOperation::AssignmentOp(AssignmentOp::Add)),
        ("<<=", AnyOperation::AssignmentOp(AssignmentOp::BitSh1)),
        ("==", AnyOperation::ComparisonOp(ComparisonOp::Eq)),
        ("<", AnyOperation::ComparisonOp(ComparisonOp::LessThan)),
        (">=", AnyOperation::ComparisonOp(ComparisonOp::GreaterThanOrEqual)),
        ("<<", AnyOperation::BinOp(BinOp::Shl)),
        ("&&", AnyOperation::LogicalOp(LogicalOp::And)),
        ("||", AnyOperation::LogicalOp(LogicalOp::Or)),
        ("!", AnyOperation::BinOp(BinOp::Not)),
        ("~", AnyOperation::BinOp(BinOp::Flip)),
        ("%", AnyOperation::BinOp(BinOp::Percent)),
    ];
    for (text, op) in expect {
        assert_eq!(AnyOperation::from_string(text.to_string()), Some(op));
    }
    assert_eq!(AnyOperation::from_string("and".to_string()), None);
    assert_eq!(AnyOperation::from_string("".to_string()), None);
}

#[test]
fn built_in_types_by_name() {
    assert!(matches!(BuiltInType::from_string("byte".to_string()), Some(BuiltInType::Byte)));
    assert!(matches!(BuiltInType::from_string("any".to_string()), Some(BuiltInType::Any)));
    assert!(matches!(
        BuiltInType::from_string("u128".to_string()),
        Some(BuiltInType::Strict(StrictBuiltInType::U128))
    ));
    assert!(matches!(
        BuiltInType::from_string("f32".to_string()),
        Some(BuiltInType::Strict(StrictBuiltInType::F32))
    ));
    match BuiltInType::from_string("array".to_string()) {
        Some(BuiltInType::Array(inner)) => {
            assert!(matches!(*inner, TypeKind::BuiltIn(BuiltInType::Any)))
        }
        other => panic!("not an array: {:?}", other),
    }
    assert!(BuiltInType::from_string("Int".to_string()).is_none());
    assert!(matches!(TypeKind::built_in("bool".to_string()), TypeKind::BuiltIn(BuiltInType::Bool)));
}

#[test]
fn type_constructors() {
    match TypeKind::union(vec![TypeKind::built_in("int".to_string())]) {
        TypeKind::Union(u) => assert_eq!(u.types.len(), 1),
        other => panic!("not a union: {:?}", other),
    }
    match TypeKind::reference("Foo".to_string(), Some(vec![TypeParam::new(TypeKind::built_in("int".to_string()))])) {
        TypeKind::Reference(r) => {
            assert_eq!(r.name, "Foo");
            assert!(r.params.unwrap()[0].name.is_none());
        }
        other => panic!("not a reference: {:?}", other),
    }
    match TypeKind::runtime_type("x".to_string()) {
        TypeKind::RuntimeType(r) => {
            assert!(r.params.is_none());
            assert!(matches!(*r.body, Expression::Literal(ref l) if l.value == "None"));
        }
        other => panic!("not a runtime type: {:?}", other),
    }
    assert!(TypeUnion::empty().types.is_empty());
    assert_eq!(TypeUnion::new(vec![]).types.len(), 0);
    assert_eq!(TypeReference::new("A".to_string(), None).name, "A");
    assert!(RuntimeType::new(None, lit("1")).params.is_none());
    assert!(RuntimeType::empty().params.is_none());
    let def = TypeDefinition::new("T".to_string(), None, TypeKind::built_in("int".to_string()));
    assert_eq!(def.name, "T");
    let r = TypeRef::new(1, 2);
    assert_eq!((r.context, r.node), (1, 2));
}

#[test]
fn type_store_by_id() {
    let mut store = TypeStore::new();
    assert!(store.get_type(0).is_none());
    let a = store.add_type("A".to_string(), None, TypeKind::built_in("int".to_string()));
    let b = store.add_type("B".to_string(), None, TypeKind::built_in("bool".to_string()));
    assert_eq!((a, b), (0, 1));
    assert_eq!(store.get_type(1).unwrap().name, "B");
    assert!(store.get_type(2).is_none());
    assert!(store.has_room());
}

#[test]
fn type_store_by_name() {
    let mut store = surn::types::TypeStore::new(Some(3));
    assert!(!store.type_exists("A".to_string()));
    let a = store.make_type(surn::types::Type { name: "A".to_string(), kind: surn::types::TypeKind::BuiltIn(surn::types::BuiltInType::Int), id: 40 });
    assert_eq!((a.context, a.id), (3, 1));
    assert!(store.type_exists("A".to_string()));
    assert_eq!(store.find_type("A".to_string()).unwrap().id, 40);
    assert!(store.find_type("B".to_string()).is_none());
    let again = store.make_type(surn::types::Type { name: "A".to_string(), kind: surn::types::TypeKind::BuiltIn(surn::types::BuiltInType::Bool), id: 41 });
    assert_eq!((again.context, again.id), (3, 40));
    assert!(store.has_room());
    assert_eq!(store.get_next_id(), 2);
    let b = store.make_type(surn::types::Type { name: "B".to_string(), kind: surn::types::TypeKind::BuiltIn(surn::types::BuiltInType::Bool), id: 0 });
    assert_eq!(b.id, 3);
    assert_eq!(surn::types::TypeStore::new(None).make_type(surn::types::Type {
        name: "C".to_string(),
        kind: surn::types::TypeKind::BuiltIn(surn::types::BuiltInType::String),
        id: 0
    }).context, 0);
}

#[test]
fn statements() {
    let var = Statement::Var(Variable::new("x".to_string(), None, Visibility::Private, None));
    assert!(var.is_mutable() && !var.is_immutable());
    assert_eq!(var.get_mutable().unwrap().name, "x");
    assert!(var.get_immutable().is_none());
    let constant = Statement::Const(Variable::new("y".to_string(), None, Visibility::Public, Some(lit("1"))));
    assert!(constant.is_immutable());
    assert_eq!(constant.get_immutable().unwrap().name, "y");
    let block = Statement::Block(vec![lit("1"), Expression::EndOfLine]);
    assert!(block.is_block());
    assert_eq!(block.get_block().unwrap().len(), 2);
    assert!(block.get_class().is_none());
    assert!(block.get_function().is_none());
    let class = Statement::Class(Class::new());
    assert!(class.is_class());
    assert_eq!(class.get_class().unwrap().node_id, 0);
    let import = Statement::Import(Path::new("a".to_string()));
    assert!(import.is_import());
    assert_eq!(import.get_import().unwrap().name, "a");
    let stat = Statement::Static(Static::new(Visibility::Public, Statement::Block(vec![])));
    assert!(stat.is_static());
    assert!(stat.get_static().unwrap().statement.is_block());
    let alias = Statement::TypeDef(TypeDefinition::new("T".to_string(), None, TypeKind::built_in("int".to_string())));
    assert!(alias.is_type());
    assert_eq!(alias.get_type_definition().unwrap().name, "T");
    assert_eq!(alias.get_type().unwrap().name, "T");
    let function = Statement::Function(Function::new(None, vec![], None, vec![], Visibility::Public));
    assert!(function.is_function());
    assert!(function.get_function().unwrap().name.is_none());
    assert!(function.get_function().unwrap().with_visibility(Visibility::Module).visibility == Visibility::Module);
    assert!(!function.is_macro_invocation());
    assert!(function.get_macro_invocation().is_none());
    assert!(Statement::Namespace(Namespace::new(Path::new("n".to_string()))).is_namespace());
    assert!(Statement::Return(Return::new(None)).is_return());
}

#[test]
fn expressions_and_members() {
    let token = Token(TokenType::Identifier, 0..1, Some("a".to_string()));
    let member = MemberListNode::new(lit("b"), token, MemberLookup::Static);
    assert_eq!(member.origin.value().as_deref(), Some("a"));
    assert_eq!(Array::new(vec![lit("1")], None).values.len(), 1);
    assert!(Object::empty().properties.is_empty());
    let mut object = Object::new(vec![ObjectProperty::new("k".to_string(), lit("v"))], None);
    object.push_property(ObjectProperty::new("l".to_string(), lit("w")));
    assert_eq!(object.properties[1].name, "l");
    let op = Operation::new(lit("1"), AnyOperation::BinOp(BinOp::Plus), lit("2"));
    assert!(matches!(*op.right, Expression::Literal(ref l) if l.value == "2"));
    assert_eq!(Call::new("f".to_string(), vec![]).name, "f");
    assert_eq!(NewCall::new("F".to_string(), vec![lit("1")]).arguments.len(), 1);
    assert_eq!(FunctionInput::new("x".to_string(), None).name, "x");
    match Return::of(lit("1")) {
        Expression::Statement(s) => assert!(s.is_return()),
        other => panic!("not a statement: {:?}", other),
    }
    let property = ClassProperty::new("p".to_string(), Visibility::Protected, None, None);
    match ClassAllowedStatement::new_static(ClassAllowedStatement::Property(property)) {
        ClassAllowedStatement::Static(inner) => {
            assert!(matches!(*inner, ClassAllowedStatement::Property(_)))
        }
        other => panic!("not static: {:?}", other),
    }
    let mut body = ClassBody::new();
    body.push_property(ClassProperty::new("p".to_string(), Visibility::Private, None, None));
    body.push_method(Function::new(None, vec![], None, vec![], Visibility::Public));
    body.push_other(ClassAllowedStatement::Import(Path::new("a".to_string())));
    assert_eq!((body.properties.len(), body.methods.len(), body.other.len()), (1, 1, 1));
    let class = Class::with("A".to_string(), None, None, body, 9);
    assert_eq!(class.node_id, 9);
    let variable = Variable::new("v".to_string(), None, Visibility::Public, Some(lit("1")));
    let as_property = variable.to_class_property();
    assert_eq!(as_property.name, "v");
    assert!(as_property.visibility == Visibility::Public);
    assert!(as_property.assignment.is_some());
}

#[test]
fn paths_and_visibility() {
    let path = Path::from("a".to_string(), vec!["b".to_string(), "c".to_string()]);
    assert_eq!(path.name, "a");
    assert_eq!(path.parts.len(), 2);
    assert_eq!(path.parts[1].name, "c");
    assert!(path.parts[1].parts.is_empty());
    assert!(Path::new("x".to_string()).parts.is_empty());
    assert!(Visibility::from_keyword(KeyWord::Public) == Visibility::Public);
    assert!(Visibility::from_keyword(KeyWord::Protected) == Visibility::Protected);
    assert!(Visibility::from_keyword(KeyWord::Private) == Visibility::Private);
    assert!(Visibility::from_keyword(KeyWord::Var) == Visibility::Private);
}

#[test]
fn bodies_and_nodes() {
    let mut body = AstBody::new();
    body.push_statement(Statement::Block(vec![]));
    body.push_expression(lit("1"));
    body.push_node(Node::new(NodeKind::from_expression(lit("2")), 3..5, 7..9));
    let program = body.get_program();
    assert_eq!(program.len(), 3);
    assert_eq!(program[0].range(), 0..0);
    assert!(matches!(program[0].inner(), NodeKind::Statement(_)));
    assert_eq!(program[2].range(), 3..9);
    assert!(matches!(NodeKind::from_statement(Statement::Block(vec![])), NodeKind::Statement(_)));
    assert_eq!(body.clone().get_program().len(), 3);
}

#[test]
fn ranges_combined() {
    assert_eq!(combine_ranges(vec![]), 0..0);
    assert_eq!(combine_ranges(vec![4..9]), 4..9);
    assert_eq!(combine_ranges(vec![4..9, 2..5, 6..12]), 2..12);
}

#[test]
fn origins_and_contexts() {
    let file = SourceOrigin::new("a.surn".to_string());
    assert!(!file.is_virtual());
    assert!(file.get_contents().is_none());
    assert_eq!(file.contents_len(), 0);
    assert_eq!(file.key_text().as_deref(), Some("a.surn"));
    let script = SourceOrigin::new_virtual("s".to_string(), "vär".to_string());
    assert!(script.is_virtual());
    assert_eq!(script.get_contents().as_deref(), Some("vär"));
    assert_eq!(script.contents_len(), 4);
    let mut context = Context::new(script.clone(), 5);
    assert_eq!(context.origin(), 5);
    assert_eq!(context.source_end(), 4);
    assert_eq!(context.get_next_local_id(), 1);
    assert_eq!(context.get_next_local_id(), 2);
    assert_eq!(context.last_local_id(), 2);
    let mut store = ContextStore::new();
    assert_eq!(store.next_context_id(), 1);
    store.add_context(&mut context);
    assert_eq!(context.origin(), 1);
    assert_eq!(store.new_context(file.clone()).origin(), 2);
    assert_eq!(store.next_context_id(), 3);
    store.remove_context(1);
    assert!(store.get_globals().is_empty());
    assert!(store.has_room());
    let mut map = SourceMap::new();
    assert!(map.add(script.clone()));
    assert!(!map.add(script));
    assert!(map.has_room());
    assert!(map.add(file));
    assert_eq!(map.get(2).unwrap().key_text().as_deref(), Some("a.surn"));
    assert!(map.get(3).is_none());
}

#[test]
fn compiler_options() {
    let release = CompilerOptions::default();
    assert!(release.semantic_checks && release.post_semantic_checks && !release.dump_ast);
    let dev = CompilerOptions::dev();
    assert!(dev.dump_ast && !dev.post_semantic_checks && dev.optimize && !dev.ast_only);
    assert_eq!(dev.version, "0.0.1-alpha.rc.1");
}

#[test]
fn layouts() {
    let psr = FormatOptions::psr_4();
    assert_eq!(psr.tab_size, 4);
    assert_eq!(psr.class_brace, BraceType::Allman);
    assert!(!psr.snake_case_vars);
    assert!(FormatOptions::rust().snake_case_vars);
    assert_eq!(FormatOptions::rust().match_brace, BraceType::KandR);
    assert_eq!(FormatOptions::default().if_brace, BraceType::KandR);
    assert!(!FormatOptions::default().snake_case_vars);
    assert_eq!(FormatOptions::default().new_line, '\n');
}

#[test]
fn php() {
    let mut transpiler = Transpiler::new();
    assert!(transpiler.get("php").is_none());
    transpiler.register_defaults();
    transpiler.register_defaults();
    let language = transpiler.get("php").unwrap();
    assert_eq!(language.name, "php");
    assert_eq!(language.version, "8.x.x");
    assert!(language.api == ApiVersion::V1);
    assert!(transpiler.get("rust").is_none());
    let mut options = CompilerOptions::dev();
    options.semantic_checks = false;
    let mut parser = Parser::new(options);
    let body = parser
        .parse_script("t".to_string(), "var x = 5;\nconst y = 1;\nfoo()".to_string())
        .unwrap();
    let generator = PhpGenerator::new(AstBody::new());
    assert_eq!(generator.render(&body), "$x = ;static y = ;");
    assert_eq!(generator.process_node(body.get_program()[0].clone()), "$x = ;");
    assert_eq!(
        language.generator.generate_to_string(body, CompilerOptions::dev()),
        "$x = ;static y = ;"
    );
}

#[test]
fn error_reports() {
    let mut options = CompilerOptions::dev();
    options.semantic_checks = false;
    let source = "var a = 1;\nvar b = [1, 2;";
    let mut error: ParserError =
        Parser::new(options).parse_script("t.surn".to_string(), source.to_string()).unwrap_err();
    assert_eq!(error.reason, "A comma is expected here.");
    assert_eq!(error.location, 24..25);
    error.set_inline("close the array".to_string());
    let report = error.to_report("t.surn".to_string(), source.to_string());
    assert!(report.can_print());
    assert_eq!(
        report.render(),
        "Error! A comma is expected here.\n----- [t.surn]\n    |\n2   | var b = [1, 2;\n    |              ~ close the array\nErr | ---> A comma is required to seperate array elements.\n"
    );
    let copy = ParserError::new("r".to_string(), "m".to_string(), 1..2, AstBody::new(), None).clone();
    assert_eq!(copy.reason, "r");
}

#[test]
fn cursor_unpeek() {
    let mut cursor = Cursor::new("abcdef");
    cursor.peek();
    cursor.peek();
    assert_eq!(cursor.unpeek(), 'd');
    assert_eq!(cursor.index(), 4);
    assert_eq!(cursor.remaining(), 2);
    assert_eq!(cursor.unpeek(), '\0');
    assert!(cursor.is_eof());
    assert_eq!(cursor.text_between(1, 3), "bc");
    assert!(!cursor.looking_at("x"));
}
