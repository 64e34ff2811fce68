//! Expressions: the part of the syntax tree that produces values.

use vstd::prelude::*;

verus! {

/// A binary operator.
#[derive(Debug, Clone, Copy, PartialEq, Eq, Structural)]
pub enum BinaryOp {
    /// Addition: `+`
    Add,
    /// Subtraction: `-`
    Sub,
    /// Multiplication: `*`
    Mul,
    /// Division: `/`
    Div,
    /// Equality: `==`
    Eq,
    /// Inequality: `!=`
    Neq,
    /// Greater than: `>`
    Gt,
    /// Less than: `<`
    Lt,
    /// Greater than or equal: `>=`
    Gte,
    /// Less than or equal: `<=`
    Lte,
    /// Conjunction: `&&`
    And,
    /// Disjunction: `||`
    Or,
}

/// A unary operator.
#[derive(Debug, Clone, Copy, PartialEq, Eq, Structural)]
pub enum UnaryOp {
    /// Logical negation: `!expr`
    Not,
    /// Arithmetic negation: `-expr`
    Neg,
}

/// An expression. Every child is owned by its parent: the tree has no sharing
/// and no cycles.
#[derive(Debug, PartialEq)]
#[allow(inconsistent_fields)]
pub enum Expression {
    /// A numeric literal, held as its text; the text is a numeric literal in
    /// the sense of [`crate::number::is_float_literal`].
    Number(String),
    /// A text literal.
    String(String),
    /// `true` or `false`.
    Boolean(bool),
    /// A reference to a variable by name.
    Variable(String),
    /// A binary operation, such as `a + b` or `x > 10`.
    Binary { left: Box<Expression>, op: BinaryOp, right: Box<Expression> },
    /// A unary operation, such as `-x` or `!done`.
    Unary { op: UnaryOp, expr: Box<Expression> },
    /// A call of `function` with the arguments in order.
    Call { function: Box<Expression>, args: Vec<Expression> },
    /// An expression in parentheses.
    Grouping(Box<Expression>),
    /// The assignment of a value to a variable.
    Assign { variable: String, value: Box<Expression> },
    /// The property `name` of `object`.
    Get { object: Box<Expression>, name: String },
    /// The assignment of a value to the property `name` of `object`.
    SetProperty { object: Box<Expression>, name: String, value: Box<Expression> },
    /// The conditional `condition ? then_branch : else_branch`.
    Ternary {
        condition: Box<Expression>,
        then_branch: Box<Expression>,
        else_branch: Box<Expression>,
    },
    /// The absent value.
    Null,
}

/// The mathematical value of an [`Expression`].
#[allow(inconsistent_fields)]
pub enum ExpressionView {
    Number(Seq<char>),
    String(Seq<char>),
    Boolean(bool),
    Variable(Seq<char>),
    Binary { left: Box<ExpressionView>, op: BinaryOp, right: Box<ExpressionView> },
    Unary { op: UnaryOp, expr: Box<ExpressionView> },
    Call { function: Box<ExpressionView>, args: Seq<ExpressionView> },
    Grouping(Box<ExpressionView>),
    Assign { variable: Seq<char>, value: Box<ExpressionView> },
    Get { object: Box<ExpressionView>, name: Seq<char> },
    SetProperty { object: Box<ExpressionView>, name: Seq<char>, value: Box<ExpressionView> },
    Ternary {
        condition: Box<ExpressionView>,
        then_branch: Box<ExpressionView>,
        else_branch: Box<ExpressionView>,
    },
    Null,
}

impl Expression {
    /// The mathematical value of the expression.
    pub open spec fn view(&self) -> ExpressionView
        decreases self,
    {
        match self {
            Expression::Number(text) => ExpressionView::Number(text@),
            Expression::String(text) => ExpressionView::String(text@),
            Expression::Boolean(b) => ExpressionView::Boolean(*b),
            Expression::Variable(name) => ExpressionView::Variable(name@),
            Expression::Binary { left, op, right } => ExpressionView::Binary {
                left: Box::new(left.view()),
                op: *op,
                right: Box::new(right.view()),
            },
            Expression::Unary { op, expr } => ExpressionView::Unary {
                op: *op,
                expr: Box::new(expr.view()),
            },
            Expression::Call { function, args } => ExpressionView::Call {
                function: Box::new(function.view()),
                args: Seq::new(
                    args@.len(),
                    |i: int|
                        if 0 <= i < args@.len() {
                            args@[i].view()
                        } else {
                            ExpressionView::Null
                        },
                ),
            },
            Expression::Grouping(inner) => ExpressionView::Grouping(Box::new(inner.view())),
            Expression::Assign { variable, value } => ExpressionView::Assign {
                variable: variable@,
                value: Box::new(value.view()),
            },
            Expression::Get { object, name } => ExpressionView::Get {
                object: Box::new(object.view()),
                name: name@,
            },
            Expression::SetProperty { object, name, value } => ExpressionView::SetProperty {
                object: Box::new(object.view()),
                name: name@,
                value: Box::new(value.view()),
            },
            Expression::Ternary { condition, then_branch, else_branch } => ExpressionView::Ternary {
                condition: Box::new(condition.view()),
                then_branch: Box::new(then_branch.view()),
                else_branch: Box::new(else_branch.view()),
            },
            Expression::Null => ExpressionView::Null,
        }
    }
}

/// The values of a sequence of expressions.
pub open spec fn expression_views(expressions: Seq<Expression>) -> Seq<ExpressionView> {
    Seq::new(expressions.len(), |i: int| expressions[i].view())
}

impl Clone for Expression {
    /// A copy of the expression with the same value.
    fn clone(&self) -> (copy: Self)
        ensures
            copy.view() == self.view(),
        decreases self,
    {
        match self {
            Expression::Number(text) => Expression::Number(text.clone()),
            Expression::String(text) => Expression::String(text.clone()),
            Expression::Boolean(b) => Expression::Boolean(*b),
            Expression::Variable(name) => Expression::Variable(name.clone()),
            Expression::Binary { left, op, right } => Expression::Binary {
                left: Box::new((**left).clone()),
                op: *op,
                right: Box::new((**right).clone()),
            },
            Expression::Unary { op, expr } => Expression::Unary {
                op: *op,
                expr: Box::new((**expr).clone()),
            },
            Expression::Call { function, args } => {
                let mut copies: Vec<Expression> = Vec::new();
                let mut i: usize = 0;
                while i < args.len()
                    invariant
                        i <= args@.len(),
                        copies@.len() == i,
                        forall|j: int| 0 <= j < i ==> copies@[j].view() == args@[j].view(),
                        forall|j: int|
                            0 <= j < args@.len() ==> decreases_to!(self => #[trigger] args@[j]),
                    decreases args@.len() - i,
                {
                    copies.push(args[i].clone());
                    i += 1;
                }
                let copy = Expression::Call { function: Box::new((**function).clone()), args: copies };
                assert(copy.view()->Call_args =~= self.view()->Call_args);
                copy
            },
            Expression::Grouping(inner) => Expression::Grouping(Box::new((**inner).clone())),
            Expression::Assign { variable, value } => Expression::Assign {
                variable: variable.clone(),
                value: Box::new((**value).clone()),
            },
            Expression::Get { object, name } => Expression::Get {
                object: Box::new((**object).clone()),
                name: name.clone(),
            },
            Expression::SetProperty { object, name, value } => Expression::SetProperty {
                object: Box::new((**object).clone()),
                name: name.clone(),
                value: Box::new((**value).clone()),
            },
            Expression::Ternary { condition, then_branch, else_branch } => Expression::Ternary {
                condition: Box::new((**condition).clone()),
                then_branch: Box::new((**then_branch).clone()),
                else_branch: Box::new((**else_branch).clone()),
            },
            Expression::Null => Expression::Null,
        }
    }
}

} // verus!
