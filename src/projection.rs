//! Projection of a specification onto inputs, comparison outputs and
//! triggers.
use vstd::prelude::*;
use crate::expr::{expression_to_string, infix, infix_to_string, render, symbol, BinOp, Expression};
use crate::model::{EvalSpec, InputDeclaration, OutputDeclaration, OutputKind, Specification};

verus! {

/// An extracted input: its name and declared type.
#[derive(Debug)]
pub struct Input {
    pub name: String,
    pub type_: String,
}

/// An extracted output: the stream's name and its comparison as text.
#[derive(Debug)]
pub struct Output {
    pub variable: String,
    pub comparison: String,
}

/// An extracted trigger: its guard and its message as text.
#[derive(Debug)]
pub struct Trigger {
    pub condition: String,
    pub message: String,
}

/// The extracted record of a specification.
#[derive(Debug)]
pub struct SpecificationJson {
    pub inputs: Vec<Input>,
    pub outputs: Vec<Output>,
    pub triggers: Vec<Trigger>,
}

/// A pair of texts: a record's two fields in order.
pub type TextPair = (Seq<char>, Seq<char>);

impl View for Input {
    type V = TextPair;

    open spec fn view(&self) -> TextPair {
        (self.name@, self.type_@)
    }
}

impl View for Output {
    type V = TextPair;

    open spec fn view(&self) -> TextPair {
        (self.variable@, self.comparison@)
    }
}

impl View for Trigger {
    type V = TextPair;

    open spec fn view(&self) -> TextPair {
        (self.condition@, self.message@)
    }
}

/// The extracted record's lists, each item as its pair of texts.
pub struct ExtractedView {
    pub inputs: Seq<TextPair>,
    pub outputs: Seq<TextPair>,
    pub triggers: Seq<TextPair>,
}

impl View for SpecificationJson {
    type V = ExtractedView;

    open spec fn view(&self) -> ExtractedView {
        ExtractedView {
            inputs: self.inputs@.map_values(|i: Input| i@),
            outputs: self.outputs@.map_values(|o: Output| o@),
            triggers: self.triggers@.map_values(|t: Trigger| t@),
        }
    }
}

/// The record of an input declaration.
pub open spec fn input_record(d: InputDeclaration) -> TextPair {
    (d.name@, d.ty@)
}

/// The value expression of an output's first evaluation clause, if any.
pub open spec fn first_value(o: OutputDeclaration) -> Option<Expression> {
    if o.eval@.len() > 0 {
        o.eval@[0].value
    } else {
        None
    }
}

/// The guard of an output's first evaluation clause, if any.
pub open spec fn first_guard(o: OutputDeclaration) -> Option<Expression> {
    if o.eval@.len() > 0 {
        o.eval@[0].guard
    } else {
        None
    }
}

/// Whether an output is extracted as a comparison: a named output whose
/// first evaluation clause has a value that is a binary expression at the
/// top level. Later clauses are not looked at.
pub open spec fn is_comparison_output(o: OutputDeclaration) -> bool {
    &&& o.kind is NamedOutput
    &&& first_value(o) matches Some(Expression::Binary(_, _, _))
}

/// The record of an output declaration, if it is a comparison output.
pub open spec fn output_record(o: OutputDeclaration) -> Option<TextPair> {
    match (o.kind, first_value(o)) {
        (OutputKind::NamedOutput(name), Some(Expression::Binary(op, l, r))) => Some(
            (name@, infix(render(*l), op, render(*r))),
        ),
        _ => None,
    }
}

pub open spec fn is_trigger(o: OutputDeclaration) -> bool {
    o.kind is Trigger
}

/// The text of an optional expression, or `absent` where there is none.
pub open spec fn render_or(e: Option<Expression>, absent: Seq<char>) -> Seq<char> {
    match e {
        Some(x) => render(x),
        None => absent,
    }
}

/// The record of a trigger declaration, from its first evaluation clause.
pub open spec fn trigger_record(o: OutputDeclaration) -> Option<TextPair> {
    if is_trigger(o) {
        Some(
            (
                render_or(first_guard(o), "No condition"@),
                render_or(first_value(o), "No message"@),
            ),
        )
    } else {
        None
    }
}

/// The records of input declarations, in order.
pub open spec fn projected_inputs(inputs: Seq<InputDeclaration>) -> Seq<TextPair> {
    inputs.map_values(|d: InputDeclaration| input_record(d))
}

/// The records of the comparison outputs among the declarations, in order.
pub open spec fn projected_outputs(outputs: Seq<OutputDeclaration>) -> Seq<TextPair> {
    outputs.filter_map(|o: OutputDeclaration| output_record(o))
}

/// The records of the triggers among the declarations, in order.
pub open spec fn projected_triggers(outputs: Seq<OutputDeclaration>) -> Seq<TextPair> {
    outputs.filter_map(|o: OutputDeclaration| trigger_record(o))
}

/// The extracted record of a specification's declarations.
pub open spec fn project(inputs: Seq<InputDeclaration>, outputs: Seq<OutputDeclaration>) -> ExtractedView {
    ExtractedView {
        inputs: projected_inputs(inputs),
        outputs: projected_outputs(outputs),
        triggers: projected_triggers(outputs),
    }
}

pub open spec fn input_views(v: Seq<Input>) -> Seq<TextPair> {
    v.map_values(|i: Input| i@)
}

pub open spec fn output_views(v: Seq<Output>) -> Seq<TextPair> {
    v.map_values(|o: Output| o@)
}

pub open spec fn trigger_views(v: Seq<Trigger>) -> Seq<TextPair> {
    v.map_values(|t: Trigger| t@)
}

/// Every input declaration gives one record, in the same position, holding
/// its name and its type as written.
pub proof fn lemma_inputs_kept(inputs: Seq<InputDeclaration>)
    ensures
        projected_inputs(inputs).len() == inputs.len(),
        forall|k: int|
            0 <= k < inputs.len() ==> #[trigger] projected_inputs(inputs)[k] == (
                inputs[k].name@,
                inputs[k].ty@,
            ),
{
}

/// A named output whose first value expression is binary adds exactly one
/// record after those of the declarations before it: its name and the
/// rendered comparison.
pub proof fn lemma_comparison_output_recorded(
    before: Seq<OutputDeclaration>,
    o: OutputDeclaration,
    name: String,
    op: BinOp,
    left: Expression,
    right: Expression,
)
    requires
        o.kind == OutputKind::NamedOutput(name),
        first_value(o) == Some(Expression::Binary(op, Box::new(left), Box::new(right))),
    ensures
        projected_outputs(before.push(o)) == projected_outputs(before).push(
            (name@, render(left) + " "@ + symbol(op) + " "@ + render(right)),
        ),
{
    assert(before.push(o).drop_last() =~= before);
}

/// A declaration that is not a comparison output adds no record.
pub proof fn lemma_other_output_omitted(before: Seq<OutputDeclaration>, o: OutputDeclaration)
    requires
        !is_comparison_output(o),
    ensures
        projected_outputs(before.push(o)) == projected_outputs(before),
{
    assert(before.push(o).drop_last() =~= before);
}

/// There are as many output records as comparison outputs.
pub proof fn lemma_output_count(outputs: Seq<OutputDeclaration>)
    ensures
        projected_outputs(outputs).len() == outputs.filter(
            |o: OutputDeclaration| is_comparison_output(o),
        ).len(),
    decreases outputs.len(),
{
    reveal(Seq::filter);
    if outputs.len() > 0 {
        lemma_output_count(outputs.drop_last());
    }
}

/// Every trigger adds exactly one record, with `No condition` where its
/// first evaluation clause has no guard and `No message` where it has no
/// value.
pub proof fn lemma_trigger_recorded(before: Seq<OutputDeclaration>, o: OutputDeclaration)
    requires
        is_trigger(o),
    ensures
        projected_triggers(before.push(o)).len() == projected_triggers(before).len() + 1,
        projected_triggers(before.push(o)).drop_last() == projected_triggers(before),
        first_guard(o) is None ==> projected_triggers(before.push(o)).last().0 == "No condition"@,
        first_value(o) is None ==> projected_triggers(before.push(o)).last().1 == "No message"@,
{
    assert(before.push(o).drop_last() =~= before);
    assert(projected_triggers(before.push(o)).drop_last() =~= projected_triggers(before));
}

/// There are as many trigger records as triggers.
pub proof fn lemma_trigger_count(outputs: Seq<OutputDeclaration>)
    ensures
        projected_triggers(outputs).len() == outputs.filter(|o: OutputDeclaration| is_trigger(o)).len(),
    decreases outputs.len(),
{
    reveal(Seq::filter);
    if outputs.len() > 0 {
        lemma_trigger_count(outputs.drop_last());
    }
}

/// The record of one input declaration.
pub fn project_input(d: &InputDeclaration) -> (r: Input)
    ensures
        r@ == input_record(*d),
{
    Input { name: d.name.clone(), type_: d.ty.clone() }
}

/// Whether an output declaration is extracted as a comparison: only a named
/// output whose first evaluation clause has a binary value expression is.
pub fn qualifies_as_comparison(o: &OutputDeclaration) -> (r: bool)
    ensures
        r == is_comparison_output(*o),
{
    match &o.kind {
        OutputKind::NamedOutput(_) => o.eval.len() > 0 && matches!(&o.eval[0].value, Some(Expression::Binary(_, _, _))),
        _ => false,
    }
}

/// The record of an output declaration where it is a comparison output
/// (see [`is_comparison_output`]); `None` for every other declaration.
pub fn project_output(o: &OutputDeclaration) -> (r: Option<Output>)
    ensures
        r is Some <==> is_comparison_output(*o),
        r matches Some(x) ==> output_record(*o) == Some(x@),
        r is None ==> output_record(*o) is None,
{
    match &o.kind {
        OutputKind::NamedOutput(name) => {
            if o.eval.len() == 0 {
                return None;
            }
            match &o.eval[0].value {
                Some(Expression::Binary(op, l, r)) => {
                    let left = expression_to_string(l);
                    let right = expression_to_string(r);
                    Some(Output { variable: name.clone(), comparison: infix_to_string(left, op, &right) })
                },
                _ => None,
            }
        },
        _ => None,
    }
}

/// The text of an optional expression, or `absent` where there is none.
pub fn render_or_else(e: &Option<Expression>, absent: &str) -> (r: String)
    ensures
        r@ == render_or(*e, absent@),
{
    match e {
        Some(x) => expression_to_string(x),
        None => String::from_str(absent),
    }
}

/// The record of a trigger declaration; `None` for every other declaration.
pub fn project_trigger(o: &OutputDeclaration) -> (r: Option<Trigger>)
    ensures
        r is Some <==> is_trigger(*o),
        r matches Some(x) ==> trigger_record(*o) == Some(x@),
        r is None ==> trigger_record(*o) is None,
{
    match &o.kind {
        OutputKind::Trigger => {
            let (condition, message) = if o.eval.len() == 0 {
                (String::from_str("No condition"), String::from_str("No message"))
            } else {
                (
                    render_or_else(&o.eval[0].guard, "No condition"),
                    render_or_else(&o.eval[0].value, "No message"),
                )
            };
            Some(Trigger { condition, message })
        },
        _ => None,
    }
}

/// Extracts the record of a specification: every input, the comparison
/// outputs and every trigger, each list in source order.
pub fn rtlola_ast_to_json(spec: &Specification) -> (r: SpecificationJson)
    ensures
        input_views(r.inputs@) == projected_inputs(spec.inputs@),
        output_views(r.outputs@) == projected_outputs(spec.outputs@),
        trigger_views(r.triggers@) == projected_triggers(spec.outputs@),
        r@ == project(spec.inputs@, spec.outputs@),
{
    let mut inputs: Vec<Input> = Vec::new();
    let mut i: usize = 0;
    while i < spec.inputs.len()
        invariant
            i <= spec.inputs@.len(),
            inputs@.len() == i,
            forall|k: int| 0 <= k < i ==> inputs@[k]@ == input_record(spec.inputs@[k]),
        decreases spec.inputs@.len() - i,
    {
        let rec = project_input(&spec.inputs[i]);
        inputs.push(rec);
        i += 1;
    }
    assert(input_views(inputs@) =~= projected_inputs(spec.inputs@));

    let mut outputs: Vec<Output> = Vec::new();
    let mut triggers: Vec<Trigger> = Vec::new();
    let mut j: usize = 0;
    while j < spec.outputs.len()
        invariant
            j <= spec.outputs@.len(),
            output_views(outputs@) =~= projected_outputs(spec.outputs@.take(j as int)),
            trigger_views(triggers@) =~= projected_triggers(spec.outputs@.take(j as int)),
        decreases spec.outputs@.len() - j,
    {
        let ghost before = spec.outputs@.take(j as int);
        let ghost prev_outputs = outputs@;
        let ghost prev_triggers = triggers@;
        let o = &spec.outputs[j];
        proof {
            let now = spec.outputs@.take(j + 1);
            assert(now.drop_last() =~= before);
            assert(now.last() == *o);
        }
        match project_output(o) {
            Some(x) => {
                let ghost v = x@;
                outputs.push(x);
                assert(output_views(outputs@) =~= output_views(prev_outputs).push(v));
            },
            None => {},
        }
        match project_trigger(o) {
            Some(x) => {
                let ghost v = x@;
                triggers.push(x);
                assert(trigger_views(triggers@) =~= trigger_views(prev_triggers).push(v));
            },
            None => {},
        }
        j += 1;
    }
    assert(spec.outputs@.take(j as int) =~= spec.outputs@);
    SpecificationJson { inputs, outputs, triggers }
}

} // verus!
