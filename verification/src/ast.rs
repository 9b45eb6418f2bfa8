//! The syntax tree of the language, and its mathematical view.

use vstd::prelude::*;

verus! {

/// A binary operator.
#[derive(PartialEq, Eq, Debug, Clone, Copy, Structural)]
pub enum Operator {
    Add,
    Subtract,
    Multiply,
    Divide,
    Remainder,
    And,
    Or,
    Equals,
}

/// A unary operator.
#[derive(PartialEq, Eq, Debug, Clone, Copy, Structural)]
pub enum UnaryOperator {
    Not,
    Negative,
}

/// The scope that a declaration names: `global`, `static`, or none (local).
#[derive(PartialEq, Eq, Debug, Clone, Copy, Structural)]
pub enum Pattern {
    Global,
    Static,
    Var,
}

/// An expression.
#[derive(PartialEq, Debug)]
#[allow(inconsistent_fields)]
pub enum Expression {
    OperatorExpression { operator: Operator, left: Box<Expression>, right: Box<Expression> },
    UnaryExpression { operator: UnaryOperator, expression: Box<Expression> },
    FunctionCall { name: String, arguments: Vec<Expression> },
    Ident(String),
    Str(String),
    Int(i64),
    Boolean(bool),
}

/// A statement.
#[derive(PartialEq, Debug)]
pub enum Statement {
    Goto(Box<Expression>),
    Declare { pattern: Box<Pattern>, name: String, expression: Box<Expression> },
    Assignment { name: String, expression: Box<Expression> },
    If {
        conditional: Box<Expression>,
        statements: Vec<Statement>,
        else_statements: Option<Vec<Statement>>,
    },
    Function { name: String, parameters: Vec<String>, statements: Vec<Statement> },
    Expression(Box<Expression>),
    Return(Box<Expression>),
}

/// What an [`Expression`] is, mathematically.
#[allow(inconsistent_fields)]
pub enum ExpressionView {
    OperatorExpression { operator: Operator, left: Box<ExpressionView>, right: Box<ExpressionView> },
    UnaryExpression { operator: UnaryOperator, expression: Box<ExpressionView> },
    FunctionCall { name: Seq<char>, arguments: Seq<ExpressionView> },
    Ident(Seq<char>),
    Str(Seq<char>),
    Int(i64),
    Boolean(bool),
}

/// What a [`Statement`] is, mathematically.
pub enum StatementView {
    Goto(ExpressionView),
    Declare { pattern: Pattern, name: Seq<char>, expression: ExpressionView },
    Assignment { name: Seq<char>, expression: ExpressionView },
    If {
        conditional: ExpressionView,
        statements: Seq<StatementView>,
        else_statements: Option<Seq<StatementView>>,
    },
    Function { name: Seq<char>, parameters: Seq<Seq<char>>, statements: Seq<StatementView> },
    Expression(ExpressionView),
    Return(ExpressionView),
}

/// The views of a sequence of names.
pub open spec fn names_view(names: Seq<String>) -> Seq<Seq<char>> {
    Seq::new(names.len(), |i: int| names[i]@)
}

/// The views of a sequence of expressions.
pub open spec fn expressions_view(expressions: Seq<Expression>) -> Seq<ExpressionView>
    decreases expressions,
{
    Seq::new(
        expressions.len(),
        |i: int|
            if 0 <= i < expressions.len() {
                expression_view(&expressions[i])
            } else {
                ExpressionView::Boolean(false)
            },
    )
}

/// The views of a sequence of statements.
pub open spec fn statements_view(statements: Seq<Statement>) -> Seq<StatementView>
    decreases statements,
{
    Seq::new(
        statements.len(),
        |i: int|
            if 0 <= i < statements.len() {
                statement_view(&statements[i])
            } else {
                StatementView::Expression(ExpressionView::Boolean(false))
            },
    )
}

/// The view of one expression.
pub open spec fn expression_view(e: &Expression) -> ExpressionView
    decreases e,
{
    match e {
        Expression::OperatorExpression { operator, left, right } => {
            ExpressionView::OperatorExpression {
                operator: *operator,
                left: Box::new(expression_view(&**left)),
                right: Box::new(expression_view(&**right)),
            }
        },
        Expression::UnaryExpression { operator, expression } => {
            ExpressionView::UnaryExpression {
                operator: *operator,
                expression: Box::new(expression_view(&**expression)),
            }
        },
        Expression::FunctionCall { name, arguments } => ExpressionView::FunctionCall {
            name: name@,
            arguments: expressions_view(arguments@),
        },
        Expression::Ident(name) => ExpressionView::Ident(name@),
        Expression::Str(s) => ExpressionView::Str(s@),
        Expression::Int(i) => ExpressionView::Int(*i),
        Expression::Boolean(b) => ExpressionView::Boolean(*b),
    }
}

/// The view of one statement.
pub open spec fn statement_view(s: &Statement) -> StatementView
    decreases s,
{
    match s {
        Statement::Goto(e) => StatementView::Goto(expression_view(&**e)),
        Statement::Declare { pattern, name, expression } => StatementView::Declare {
            pattern: **pattern,
            name: name@,
            expression: expression_view(&**expression),
        },
        Statement::Assignment { name, expression } => StatementView::Assignment {
            name: name@,
            expression: expression_view(&**expression),
        },
        Statement::If { conditional, statements, else_statements } => StatementView::If {
            conditional: expression_view(&**conditional),
            statements: statements_view(statements@),
            else_statements: match else_statements {
                Some(e) => Some(statements_view(e@)),
                None => None,
            },
        },
        Statement::Function { name, parameters, statements } => StatementView::Function {
            name: name@,
            parameters: names_view(parameters@),
            statements: statements_view(statements@),
        },
        Statement::Expression(e) => StatementView::Expression(expression_view(&**e)),
        Statement::Return(e) => StatementView::Return(expression_view(&**e)),
    }
}

impl View for Expression {
    type V = ExpressionView;

    open spec fn view(&self) -> ExpressionView {
        expression_view(self)
    }
}

impl View for Statement {
    type V = StatementView;

    open spec fn view(&self) -> StatementView {
        statement_view(self)
    }
}

/// A copy of a list of names.
pub fn clone_names(names: &Vec<String>) -> (r: Vec<String>)
    ensures
        names_view(r@) == names_view(names@),
{
    let mut out: Vec<String> = Vec::new();
    let mut i: usize = 0;
    while i < names.len()
        invariant
            i <= names.len(),
            out@.len() == i,
            forall|j: int| 0 <= j < i ==> out@[j]@ == names@[j]@,
        decreases names.len() - i,
    {
        out.push(names[i].clone());
        i += 1;
    }
    assert(names_view(out@) =~= names_view(names@));
    out
}

/// A copy of a list of expressions.
pub fn clone_expressions(expressions: &Vec<Expression>) -> (r: Vec<Expression>)
    ensures
        expressions_view(r@) == expressions_view(expressions@),
    decreases expressions,
{
    let mut out: Vec<Expression> = Vec::new();
    let mut i: usize = 0;
    while i < expressions.len()
        invariant
            i <= expressions.len(),
            out@.len() == i,
            forall|j: int| 0 <= j < i ==> out@[j]@ == expressions@[j]@,
        decreases expressions.len() - i,
    {
        out.push(clone_expression(&expressions[i]));
        i += 1;
    }
    assert(expressions_view(out@) =~= expressions_view(expressions@));
    out
}

/// A copy of a list of statements.
pub fn clone_statements(statements: &Vec<Statement>) -> (r: Vec<Statement>)
    ensures
        statements_view(r@) == statements_view(statements@),
    decreases statements,
{
    let mut out: Vec<Statement> = Vec::new();
    let mut i: usize = 0;
    while i < statements.len()
        invariant
            i <= statements.len(),
            out@.len() == i,
            forall|j: int| 0 <= j < i ==> out@[j]@ == statements@[j]@,
        decreases statements.len() - i,
    {
        out.push(clone_statement(&statements[i]));
        i += 1;
    }
    assert(statements_view(out@) =~= statements_view(statements@));
    out
}

/// A copy of an expression.
pub fn clone_expression(e: &Expression) -> (r: Expression)
    ensures
        r@ == e@,
    decreases e,
{
    match e {
        Expression::OperatorExpression { operator, left, right } => {
            Expression::OperatorExpression {
                operator: *operator,
                left: Box::new(clone_expression(&**left)),
                right: Box::new(clone_expression(&**right)),
            }
        },
        Expression::UnaryExpression { operator, expression } => Expression::UnaryExpression {
            operator: *operator,
            expression: Box::new(clone_expression(&**expression)),
        },
        Expression::FunctionCall { name, arguments } => Expression::FunctionCall {
            name: name.clone(),
            arguments: clone_expressions(arguments),
        },
        Expression::Ident(name) => Expression::Ident(name.clone()),
        Expression::Str(s) => Expression::Str(s.clone()),
        Expression::Int(i) => Expression::Int(*i),
        Expression::Boolean(b) => Expression::Boolean(*b),
    }
}

/// A copy of a statement.
pub fn clone_statement(s: &Statement) -> (r: Statement)
    ensures
        r@ == s@,
    decreases s,
{
    match s {
        Statement::Goto(e) => Statement::Goto(Box::new(clone_expression(&**e))),
        Statement::Declare { pattern, name, expression } => Statement::Declare {
            pattern: Box::new(**pattern),
            name: name.clone(),
            expression: Box::new(clone_expression(&**expression)),
        },
        Statement::Assignment { name, expression } => Statement::Assignment {
            name: name.clone(),
            expression: Box::new(clone_expression(&**expression)),
        },
        Statement::If { conditional, statements, else_statements } => Statement::If {
            conditional: Box::new(clone_expression(&**conditional)),
            statements: clone_statements(statements),
            else_statements: match else_statements {
                Some(e) => Some(clone_statements(e)),
                None => None,
            },
        },
        Statement::Function { name, parameters, statements } => Statement::Function {
            name: name.clone(),
            parameters: clone_names(parameters),
            statements: clone_statements(statements),
        },
        Statement::Expression(e) => Statement::Expression(Box::new(clone_expression(&**e))),
        Statement::Return(e) => Statement::Return(Box::new(clone_expression(&**e))),
    }
}

impl Clone for Expression {
    fn clone(&self) -> (r: Expression)
        ensures
            r@ == self@,
    {
        clone_expression(self)
    }
}

impl Clone for Statement {
    fn clone(&self) -> (r: Statement)
        ensures
            r@ == self@,
    {
        clone_statement(self)
    }
}

} // verus!
