//! The parts of a parsed specification that extraction reads.
use vstd::prelude::*;
use crate::expr::Expression;

verus! {

/// An input stream: its name and its type as written.
#[derive(Debug)]
pub struct InputDeclaration {
    pub name: String,
    pub ty: String,
}

/// What an output declaration declares.
#[derive(Debug)]
pub enum OutputKind {
    /// A named output stream.
    NamedOutput(String),
    Trigger,
    /// Any other kind of declaration; never projected.
    Other,
}

/// One evaluation clause of an output: an optional guard and an optional
/// value expression.
#[derive(Debug)]
pub struct EvalSpec {
    pub guard: Option<Expression>,
    pub value: Option<Expression>,
}

/// An output declaration with its evaluation clauses in source order.
#[derive(Debug)]
pub struct OutputDeclaration {
    pub kind: OutputKind,
    pub eval: Vec<EvalSpec>,
}

/// A specification: its inputs and outputs in source order.
#[derive(Debug)]
pub struct Specification {
    pub inputs: Vec<InputDeclaration>,
    pub outputs: Vec<OutputDeclaration>,
}

} // verus!
