//! Statements: the part of the syntax tree that performs actions.

use vstd::prelude::*;
use crate::ast::expressions::{Expression, ExpressionView};

verus! {

/// A statement. Every child is owned by its parent: the tree has no sharing
/// and no cycles.
#[derive(Debug, PartialEq)]
#[allow(inconsistent_fields)]
pub enum Statement {
    /// A function declaration, anonymous where `name` is absent:
    /// `fn greet(name) { ... }`.
    Function { name: Option<String>, params: Vec<String>, body: Vec<Statement> },
    /// A conditional with an optional `else` branch.
    If { condition: Expression, then_branch: Box<Statement>, else_branch: Option<Box<Statement>> },
    /// A loop that tests its condition before each round.
    While { condition: Expression, body: Box<Statement> },
    /// A loop that tests its condition after each round.
    DoWhile { body: Box<Statement>, condition: Expression },
    /// A loop with a declaration, a condition and an increment:
    /// `for (let i = 0; i < 10; i = i + 1) { ... }`.
    ForCStyle {
        init: Box<Statement>,
        condition: Expression,
        increment: Expression,
        body: Box<Statement>,
    },
    /// A loop over the items of a collection: `for (item in items) { ... }`.
    ForIn { variable: String, iterable: Expression, body: Box<Statement> },
    /// A return from a function, with or without a value.
    Return(Option<Expression>),
    /// A sequence of statements between braces.
    Block(Vec<Statement>),
    /// `break;`
    Break,
    /// `continue;`
    Continue,
    /// An expression used as a statement.
    Expression(Expression),
    /// A variable declaration with an optional initial value: `let x;` or
    /// `let x = 42;`.
    Variable { name: String, initializer: Option<Expression> },
}

/// The mathematical value of a [`Statement`].
#[allow(inconsistent_fields)]
pub enum StatementView {
    Function { name: Option<Seq<char>>, params: Seq<Seq<char>>, body: Seq<StatementView> },
    If {
        condition: ExpressionView,
        then_branch: Box<StatementView>,
        else_branch: Option<Box<StatementView>>,
    },
    While { condition: ExpressionView, body: Box<StatementView> },
    DoWhile { body: Box<StatementView>, condition: ExpressionView },
    ForCStyle {
        init: Box<StatementView>,
        condition: ExpressionView,
        increment: ExpressionView,
        body: Box<StatementView>,
    },
    ForIn { variable: Seq<char>, iterable: ExpressionView, body: Box<StatementView> },
    Return(Option<ExpressionView>),
    Block(Seq<StatementView>),
    Break,
    Continue,
    Expression(ExpressionView),
    Variable { name: Seq<char>, initializer: Option<ExpressionView> },
}

/// The values of a sequence of texts.
pub open spec fn text_views(texts: Seq<String>) -> Seq<Seq<char>> {
    Seq::new(texts.len(), |i: int| texts[i]@)
}

/// The value of an optional text.
pub open spec fn optional_text_view(text: Option<String>) -> Option<Seq<char>> {
    match text {
        Some(t) => Some(t@),
        None => None,
    }
}

/// The value of an optional expression.
pub open spec fn optional_expression_view(expression: Option<Expression>) -> Option<
    ExpressionView,
> {
    match expression {
        Some(e) => Some(e.view()),
        None => None,
    }
}

impl Statement {
    /// The mathematical value of the statement.
    pub open spec fn view(&self) -> StatementView
        decreases self,
    {
        match self {
            Statement::Function { name, params, body } => StatementView::Function {
                name: optional_text_view(*name),
                params: text_views(params@),
                body: Seq::new(
                    body@.len(),
                    |i: int|
                        if 0 <= i < body@.len() {
                            body@[i].view()
                        } else {
                            StatementView::Break
                        },
                ),
            },
            Statement::If { condition, then_branch, else_branch } => StatementView::If {
                condition: condition.view(),
                then_branch: Box::new(then_branch.view()),
                else_branch: match else_branch {
                    Some(branch) => Some(Box::new(branch.view())),
                    None => None,
                },
            },
            Statement::While { condition, body } => StatementView::While {
                condition: condition.view(),
                body: Box::new(body.view()),
            },
            Statement::DoWhile { body, condition } => StatementView::DoWhile {
                body: Box::new(body.view()),
                condition: condition.view(),
            },
            Statement::ForCStyle { init, condition, increment, body } => StatementView::ForCStyle {
                init: Box::new(init.view()),
                condition: condition.view(),
                increment: increment.view(),
                body: Box::new(body.view()),
            },
            Statement::ForIn { variable, iterable, body } => StatementView::ForIn {
                variable: variable@,
                iterable: iterable.view(),
                body: Box::new(body.view()),
            },
            Statement::Return(value) => StatementView::Return(optional_expression_view(*value)),
            Statement::Block(statements) => StatementView::Block(
                Seq::new(
                    statements@.len(),
                    |i: int|
                        if 0 <= i < statements@.len() {
                            statements@[i].view()
                        } else {
                            StatementView::Break
                        },
                ),
            ),
            Statement::Break => StatementView::Break,
            Statement::Continue => StatementView::Continue,
            Statement::Expression(expression) => StatementView::Expression(expression.view()),
            Statement::Variable { name, initializer } => StatementView::Variable {
                name: name@,
                initializer: optional_expression_view(*initializer),
            },
        }
    }
}

/// The values of a sequence of statements.
pub open spec fn statement_views(statements: Seq<Statement>) -> Seq<StatementView> {
    Seq::new(statements.len(), |i: int| statements[i].view())
}

/// A copy of a list of texts.
fn clone_texts(texts: &Vec<String>) -> (copies: Vec<String>)
    ensures
        text_views(copies@) == text_views(texts@),
{
    let mut copies: Vec<String> = Vec::new();
    let mut i: usize = 0;
    while i < texts.len()
        invariant
            i <= texts@.len(),
            copies@.len() == i,
            forall|j: int| 0 <= j < i ==> copies@[j]@ == texts@[j]@,
        decreases texts@.len() - i,
    {
        copies.push(texts[i].clone());
        i += 1;
    }
    assert(text_views(copies@) =~= text_views(texts@));
    copies
}

/// A copy of an optional text.
fn clone_optional_text(text: &Option<String>) -> (copy: Option<String>)
    ensures
        optional_text_view(copy) == optional_text_view(*text),
{
    match text {
        Some(t) => Some(t.clone()),
        None => None,
    }
}

/// A copy of an optional expression.
fn clone_optional_expression(expression: &Option<Expression>) -> (copy: Option<Expression>)
    ensures
        optional_expression_view(copy) == optional_expression_view(*expression),
{
    match expression {
        Some(e) => Some(e.clone()),
        None => None,
    }
}

impl Statement {
    /// Copies of the statements in `statements`, each smaller than `self`.
    fn clone_all(&self, statements: &Vec<Statement>) -> (copies: Vec<Statement>)
        requires
            forall|j: int|
                0 <= j < statements@.len() ==> decreases_to!(self => #[trigger] statements@[j]),
        ensures
            statement_views(copies@) == statement_views(statements@),
        decreases self, 0int,
    {
        let mut copies: Vec<Statement> = Vec::new();
        let mut i: usize = 0;
        while i < statements.len()
            invariant
                i <= statements@.len(),
                copies@.len() == i,
                forall|j: int| 0 <= j < i ==> copies@[j].view() == statements@[j].view(),
                forall|j: int|
                    0 <= j < statements@.len() ==> decreases_to!(self => #[trigger] statements@[j]),
            decreases statements@.len() - i,
        {
            copies.push(statements[i].clone());
            i += 1;
        }
        assert(statement_views(copies@) =~= statement_views(statements@));
        copies
    }
}

impl Clone for Statement {
    /// A copy of the statement with the same value.
    fn clone(&self) -> (copy: Self)
        ensures
            copy.view() == self.view(),
        decreases self, 1int,
    {
        match self {
            Statement::Function { name, params, body } => {
                let copy = Statement::Function {
                    name: clone_optional_text(name),
                    params: clone_texts(params),
                    body: self.clone_all(body),
                };
                assert(copy.view()->Function_body =~= self.view()->Function_body) by {
                    assert(copy.view()->Function_body =~= statement_views(body@));
                    assert(self.view()->Function_body =~= statement_views(body@));
                }
                copy
            },
            Statement::If { condition, then_branch, else_branch } => Statement::If {
                condition: condition.clone(),
                then_branch: Box::new((**then_branch).clone()),
                else_branch: match else_branch {
                    Some(branch) => Some(Box::new((**branch).clone())),
                    None => None,
                },
            },
            Statement::While { condition, body } => Statement::While {
                condition: condition.clone(),
                body: Box::new((**body).clone()),
            },
            Statement::DoWhile { body, condition } => Statement::DoWhile {
                body: Box::new((**body).clone()),
                condition: condition.clone(),
            },
            Statement::ForCStyle { init, condition, increment, body } => Statement::ForCStyle {
                init: Box::new((**init).clone()),
                condition: condition.clone(),
                increment: increment.clone(),
                body: Box::new((**body).clone()),
            },
            Statement::ForIn { variable, iterable, body } => Statement::ForIn {
                variable: variable.clone(),
                iterable: iterable.clone(),
                body: Box::new((**body).clone()),
            },
            Statement::Return(value) => Statement::Return(clone_optional_expression(value)),
            Statement::Block(statements) => {
                let copy = Statement::Block(self.clone_all(statements));
                assert(copy.view()->Block_0 =~= self.view()->Block_0) by {
                    assert(copy.view()->Block_0 =~= statement_views(statements@));
                    assert(self.view()->Block_0 =~= statement_views(statements@));
                }
                copy
            },
            Statement::Break => Statement::Break,
            Statement::Continue => Statement::Continue,
            Statement::Expression(expression) => Statement::Expression(expression.clone()),
            Statement::Variable { name, initializer } => Statement::Variable {
                name: name.clone(),
                initializer: clone_optional_expression(initializer),
            },
        }
    }
}

} // verus!
