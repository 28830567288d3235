//! Expressions and their rendering to infix text.
use vstd::prelude::*;

verus! {

/// A binary operator. Operators that are not comparisons share one variant.
#[derive(Clone, Copy, Debug, PartialEq, Eq, Structural)]
pub enum BinOp {
    Gt,
    Lt,
    Eq,
    Ne,
    Ge,
    Le,
    Other,
}

/// The kind of a literal, as it was written in the source.
#[derive(Debug)]
pub enum LitKind {
    /// A number as lexed, without its unit suffix.
    Numeric(String),
    /// A string literal's value.
    Str(String),
    /// A raw string literal's value.
    RawStr(String),
    Bool(bool),
}

/// An expression tree. Shapes that are not identifiers, literals or binary
/// expressions (unary operators, calls, windows, tuples, ...) share one
/// variant.
#[derive(Debug)]
pub enum Expression {
    Identifier(String),
    Literal(LitKind),
    Binary(BinOp, Box<Expression>, Box<Expression>),
    Other,
}

/// The text of an operator.
pub open spec fn symbol(op: BinOp) -> Seq<char> {
    match op {
        BinOp::Gt => ">"@,
        BinOp::Lt => "<"@,
        BinOp::Eq => "=="@,
        BinOp::Ne => "!="@,
        BinOp::Ge => ">="@,
        BinOp::Le => "<="@,
        BinOp::Other => "unknown"@,
    }
}

/// The text of a literal: what was written, with no quoting added.
pub open spec fn literal_text(l: LitKind) -> Seq<char> {
    match l {
        LitKind::Numeric(raw) => raw@,
        LitKind::Str(v) => v@,
        LitKind::RawStr(v) => v@,
        LitKind::Bool(b) => if b { "true"@ } else { "false"@ },
    }
}

/// `left op right`, separated by single spaces.
pub open spec fn infix(left: Seq<char>, op: BinOp, right: Seq<char>) -> Seq<char> {
    left + " "@ + symbol(op) + " "@ + right
}

/// The infix text of an expression, without parentheses at any depth.
pub open spec fn render(e: Expression) -> Seq<char>
    decreases e,
{
    match e {
        Expression::Identifier(name) => name@,
        Expression::Literal(l) => literal_text(l),
        Expression::Binary(op, l, r) => infix(render(*l), op, render(*r)),
        Expression::Other => "complex_expression"@,
    }
}

/// A binary expression renders as its operands' texts around the operator,
/// with no parentheses added, whatever the operands are.
pub proof fn lemma_binary_unparenthesized(op: BinOp, left: Expression, right: Expression)
    ensures
        render(Expression::Binary(op, Box::new(left), Box::new(right))) == render(left) + " "@
            + symbol(op) + " "@ + render(right),
{
}

/// An operator that is not a comparison renders as `unknown`, and an
/// expression that is no identifier, literal or binary expression renders
/// as `complex_expression`.
pub proof fn lemma_fallback_texts(op: BinOp)
    requires
        op is Other,
    ensures
        symbol(op) == "unknown"@,
        render(Expression::Other) == "complex_expression"@,
{
}

/// The text of an operator.
pub fn operator_to_string(op: &BinOp) -> (r: &'static str)
    ensures
        r@ == symbol(*op),
{
    match op {
        BinOp::Gt => ">",
        BinOp::Lt => "<",
        BinOp::Eq => "==",
        BinOp::Ne => "!=",
        BinOp::Ge => ">=",
        BinOp::Le => "<=",
        BinOp::Other => "unknown",
    }
}

/// The text of a literal.
pub fn literal_to_string(l: &LitKind) -> (r: String)
    ensures
        r@ == literal_text(*l),
{
    match l {
        LitKind::Numeric(raw) => raw.clone(),
        LitKind::Str(v) => v.clone(),
        LitKind::RawStr(v) => v.clone(),
        LitKind::Bool(b) => if *b {
            String::from_str("true")
        } else {
            String::from_str("false")
        },
    }
}

/// Joins two rendered operands with an operator.
pub fn infix_to_string(left: String, op: &BinOp, right: &String) -> (r: String)
    ensures
        r@ == infix(left@, *op, right@),
{
    let mut s = left;
    s.append(" ");
    s.append(operator_to_string(op));
    s.append(" ");
    s.append(right.as_str());
    s
}

/// Renders an expression as infix text.
pub fn expression_to_string(e: &Expression) -> (r: String)
    ensures
        r@ == render(*e),
    decreases e,
{
    match e {
        Expression::Identifier(name) => name.clone(),
        Expression::Literal(l) => literal_to_string(l),
        Expression::Binary(op, l, r) => {
            let left = expression_to_string(l);
            let right = expression_to_string(r);
            infix_to_string(left, op, &right)
        },
        Expression::Other => String::from_str("complex_expression"),
    }
}

} // verus!
