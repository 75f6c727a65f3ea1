//! The generator for PHP.
use vstd::prelude::*;

use crate::ast::{
    AstBody, Expression, ExpressionView, Node, NodeKind, NodeKindView, NodeView, Statement,
    StatementView, Variable, VariableView,
};
use crate::options::CompilerOptions;
use crate::transpiler::format::FormatOptions;
use crate::transpiler::langs::{ApiVersion, Generator, Language};

verus! {

/// The language PHP.
pub fn new() -> (l: Language)
    ensures
        l.name@ == "php"@,
        l.description@ == "PHP"@,
        l.version@ == "8.x.x"@,
        l.api == ApiVersion::V1,
        l.author@ == "Suruloon Studios"@,
{
    Language {
        name: "php".to_string(),
        description: "PHP".to_string(),
        version: "8.x.x".to_string(),
        api: ApiVersion::V1,
        author: "Suruloon Studios".to_string(),
        generator: Box::new(PhpGenerator::new(AstBody::new())),
    }
}

/// The PHP for an expression. No expression has a rendering yet.
pub open spec fn expression_text(e: ExpressionView) -> Seq<char> {
    Seq::empty()
}

/// The PHP for the initial value of a binding; nothing where it has none.
pub open spec fn value_text(v: VariableView) -> Seq<char> {
    match v.assignment {
        Some(e) => expression_text(e),
        None => Seq::empty(),
    }
}

/// The PHP for a statement: an assignment for a variable, a static
/// assignment for a constant, nothing for any other statement.
pub open spec fn statement_text(s: StatementView) -> Seq<char> {
    match s {
        StatementView::Var(v) => "$"@ + v.name + " = "@ + value_text(v) + ";"@,
        StatementView::Const(v) => "static "@ + v.name + " = "@ + value_text(v) + ";"@,
        _ => Seq::empty(),
    }
}

/// The PHP for a node.
pub open spec fn node_text(n: NodeKindView) -> Seq<char> {
    match n {
        NodeKindView::Expression(e) => expression_text(e),
        NodeKindView::Statement(s) => statement_text(s),
    }
}

/// The PHP for the nodes of a program, one after the other.
pub open spec fn program_text(nodes: Seq<NodeView>) -> Seq<char>
    decreases nodes.len(),
{
    if nodes.len() == 0 {
        Seq::empty()
    } else {
        program_text(nodes.drop_last()) + node_text(nodes.last().kind)
    }
}

/// Generates PHP from a program.
pub struct PhpGenerator {
    formatting: FormatOptions,
}

impl PhpGenerator {
    /// A generator with the layout of PSR-4.
    pub fn new(body: AstBody) -> (g: Self)
        ensures
            g.layout() == FormatOptions::uniform(crate::transpiler::format::BraceType::Allman, false),
    {
        PhpGenerator { formatting: FormatOptions::psr_4() }
    }

    /// The layout of the generated code.
    pub closed spec fn layout(&self) -> FormatOptions {
        self.formatting
    }

    /// The PHP for `node`.
    pub fn process_node(&self, node: Node) -> (s: String)
        ensures
            s@ == node_text(node@.kind),
    {
        match node.inner() {
            NodeKind::Expression(expr) => self.process_expression(expr),
            NodeKind::Statement(stmt) => self.process_statement(stmt),
        }
    }

    fn process_expression(&self, expr: Expression) -> (s: String)
        ensures
            s@ == expression_text(expr@),
    {
        String::new()
    }

    fn process_statement(&self, stmt: Statement) -> (s: String)
        ensures
            s@ == statement_text(stmt@),
    {
        match stmt {
            Statement::Var(var) => self.process_variable(var),
            Statement::Const(var) => self.process_const(var),
            _ => String::new(),
        }
    }

    fn process_value(&self, value: Option<Expression>) -> (s: String)
        ensures
            s@ == match value {
                Some(e) => expression_text(e@),
                None => Seq::empty(),
            },
    {
        match value {
            Some(e) => self.process_expression(e),
            None => String::new(),
        }
    }

    fn process_variable(&self, var: Variable) -> (s: String)
        ensures
            s@ == statement_text(StatementView::Var(var@)),
    {
        let mut out = "$".to_string();
        out.append(var.name.as_str());
        out.append(" = ");
        out.append(self.process_value(var.assignment).as_str());
        out.append(";");
        assert(out@ =~= statement_text(StatementView::Var(var@)));
        out
    }

    fn process_const(&self, var: Variable) -> (s: String)
        ensures
            s@ == statement_text(StatementView::Const(var@)),
    {
        let mut out = "static ".to_string();
        out.append(var.name.as_str());
        out.append(" = ");
        out.append(self.process_value(var.assignment).as_str());
        out.append(";");
        assert(out@ =~= statement_text(StatementView::Const(var@)));
        out
    }

    /// The PHP for the program `ast`.
    pub fn render(&self, ast: &AstBody) -> (s: String)
        ensures
            s@ == program_text(ast@.program),
    {
        let program = ast.get_program();
        let ghost nodes = Node::views(program@);
        let mut output = String::new();
        let mut k: usize = 0;
        while k < program.len()
            invariant
                k <= program.len(),
                nodes == Node::views(program@),
                output@ == program_text(nodes.take(k as int)),
            decreases program.len() - k,
        {
            proof {
                assert(nodes.take(k + 1).drop_last() =~= nodes.take(k as int));
                assert(nodes.take(k + 1).last() == program@[k as int]@);
            }
            let text = self.process_node(program[k].clone());
            output.append(text.as_str());
            k += 1;
        }
        assert(nodes.take(k as int) =~= nodes);
        output
    }
}

impl Generator for PhpGenerator {
    fn generate_to_string(&self, ast: AstBody, options: CompilerOptions) -> (s: String)
        ensures
            s@ == program_text(ast@.program),
    {
        self.render(&ast)
    }
}

} // verus!
