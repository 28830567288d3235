use lola_extract::boundary::{extract, ExtractError};
use lola_extract::expr::{BinOp, Expression, LitKind};
use lola_extract::model::{EvalSpec, InputDeclaration, OutputDeclaration, OutputKind, Specification};
use lola_extract::projection::{project_output, qualifies_as_comparison, project_trigger, rtlola_ast_to_json, SpecificationJson};

fn ident(n: &str) -> Expression {
    Expression::Identifier(n.to_string())
}

fn num(n: &str) -> Expression {
    Expression::Literal(LitKind::Numeric(n.to_string()))
}

fn bin(op: BinOp, l: Expression, r: Expression) -> Expression {
    Expression::Binary(op, Box::new(l), Box::new(r))
}

fn input(name: &str, ty: &str) -> InputDeclaration {
    InputDeclaration { name: name.to_string(), ty: ty.to_string() }
}

fn named(name: &str, evals: Vec<EvalSpec>) -> OutputDeclaration {
    OutputDeclaration { kind: OutputKind::NamedOutput(name.to_string()), eval: evals }
}

fn trigger(evals: Vec<EvalSpec>) -> OutputDeclaration {
    OutputDeclaration { kind: OutputKind::Trigger, eval: evals }
}

fn value(e: Expression) -> EvalSpec {
    EvalSpec { guard: None, value: Some(e) }
}

fn pairs(r: &SpecificationJson) -> (Vec<(String, String)>, Vec<(String, String)>, Vec<(String, String)>) {
    (
        r.inputs.iter().map(|i| (i.name.clone(), i.type_.clone())).collect(),
        r.outputs.iter().map(|o| (o.variable.clone(), o.comparison.clone())).collect(),
        r.triggers.iter().map(|t| (t.condition.clone(), t.message.clone())).collect(),
    )
}

fn s(a: &str, b: &str) -> (String, String) {
    (a.to_string(), b.to_string())
}

#[test]
fn empty_specification_gives_empty_lists() {
    let r = rtlola_ast_to_json(&Specification { inputs: vec![], outputs: vec![] });
    assert!(r.inputs.is_empty());
    assert!(r.outputs.is_empty());
    assert!(r.triggers.is_empty());
}

#[test]
fn inputs_kept_in_order() {
    let spec = Specification {
        inputs: vec![input("b", "Int64"), input("a", "Bool"), input("c", "(Int8, Float32)")],
        outputs: vec![],
    };
    let (ins, _, _) = pairs(&rtlola_ast_to_json(&spec));
    assert_eq!(ins, vec![s("b", "Int64"), s("a", "Bool"), s("c", "(Int8, Float32)")]);
}

#[test]
fn comparison_output_recorded() {
    let o = named("hot", vec![value(bin(BinOp::Gt, ident("temperature"), num("30")))]);
    let r = project_output(&o).unwrap();
    assert_eq!(r.variable, "hot");
    assert_eq!(r.comparison, "temperature > 30");
}

#[test]
fn non_binary_output_omitted() {
    assert!(project_output(&named("x", vec![value(ident("a"))])).is_none());
    assert!(project_output(&named("x", vec![value(Expression::Other)])).is_none());
    assert!(project_output(&named("x", vec![EvalSpec { guard: Some(ident("g")), value: None }])).is_none());
    assert!(project_output(&named("x", vec![])).is_none());
}

#[test]
fn only_first_eval_spec_read_for_outputs() {
    let o = named(
        "x",
        vec![value(ident("a")), value(bin(BinOp::Lt, ident("a"), num("1")))],
    );
    assert!(project_output(&o).is_none());
    let o = named(
        "y",
        vec![value(bin(BinOp::Ge, ident("a"), num("1"))), value(bin(BinOp::Lt, ident("a"), num("2")))],
    );
    assert_eq!(project_output(&o).unwrap().comparison, "a >= 1");
}

#[test]
fn outputs_filtered_in_order() {
    let spec = Specification {
        inputs: vec![],
        outputs: vec![
            named("p", vec![value(bin(BinOp::Eq, ident("a"), ident("b")))]),
            named("q", vec![value(ident("a"))]),
            trigger(vec![value(Expression::Literal(LitKind::Str("m".to_string())))]),
            OutputDeclaration { kind: OutputKind::Other, eval: vec![value(bin(BinOp::Gt, ident("a"), ident("b")))] },
            named("r", vec![value(bin(BinOp::Ne, ident("c"), num("0")))]),
        ],
    };
    let (_, outs, trigs) = pairs(&rtlola_ast_to_json(&spec));
    assert_eq!(outs, vec![s("p", "a == b"), s("r", "c != 0")]);
    assert_eq!(trigs, vec![s("No condition", "m")]);
}

#[test]
fn trigger_sentinels() {
    let t = project_trigger(&trigger(vec![])).unwrap();
    assert_eq!(t.condition, "No condition");
    assert_eq!(t.message, "No message");
    let t = project_trigger(&trigger(vec![EvalSpec { guard: Some(ident("alarm")), value: None }])).unwrap();
    assert_eq!(t.condition, "alarm");
    assert_eq!(t.message, "No message");
    let t = project_trigger(&trigger(vec![value(Expression::Literal(LitKind::Str("hi".to_string())))])).unwrap();
    assert_eq!(t.condition, "No condition");
    assert_eq!(t.message, "hi");
}

#[test]
fn non_trigger_gives_no_trigger_record() {
    assert!(project_trigger(&named("x", vec![])).is_none());
    assert!(project_trigger(&OutputDeclaration { kind: OutputKind::Other, eval: vec![] }).is_none());
}

#[test]
fn every_trigger_recorded() {
    let spec = Specification {
        inputs: vec![],
        outputs: vec![trigger(vec![]), named("x", vec![]), trigger(vec![value(ident("v"))])],
    };
    let (_, outs, trigs) = pairs(&rtlola_ast_to_json(&spec));
    assert!(outs.is_empty());
    assert_eq!(trigs, vec![s("No condition", "No message"), s("No condition", "v")]);
}

#[test]
fn end_to_end_temperature() {
    let spec = Specification {
        inputs: vec![input("temperature", "Float64")],
        outputs: vec![
            named("hot", vec![value(bin(BinOp::Gt, ident("temperature"), num("30")))]),
            trigger(vec![EvalSpec {
                guard: Some(bin(BinOp::Gt, ident("temperature"), num("100"))),
                value: Some(Expression::Literal(LitKind::Str("overheat".to_string()))),
            }]),
        ],
    };
    let r = extract(Ok(spec)).unwrap();
    let (ins, outs, trigs) = pairs(&r);
    assert_eq!(ins, vec![s("temperature", "Float64")]);
    assert_eq!(outs, vec![s("hot", "temperature > 30")]);
    assert_eq!(trigs, vec![s("temperature > 100", "overheat")]);
}

#[test]
fn invalid_source_gives_failure() {
    let parsed = rtlola_parser::ParserConfig::for_string("input x: ".to_string()).parse();
    assert!(parsed.is_err());
    let r = extract(Err(ExtractError::Parse("unexpected end of input".to_string())));
    match r {
        Err(ExtractError::Parse(m)) => assert_eq!(m, "unexpected end of input"),
        _ => panic!("expected a parse failure"),
    }
}

#[test]
fn load_failure_handed_on() {
    let r = extract(Err(ExtractError::Load("no such file".to_string())));
    assert!(matches!(r, Err(ExtractError::Load(_))));
}

#[test]
fn failure_descriptions() {
    assert_eq!(ExtractError::Load("x".to_string()).describe(), "failed to load specification: x");
    assert_eq!(ExtractError::Parse("y".to_string()).describe(), "failed to parse specification: y");
}

#[test]
fn comparison_classifier() {
    assert!(qualifies_as_comparison(&named("x", vec![value(bin(BinOp::Other, ident("a"), ident("b")))])));
    assert!(!qualifies_as_comparison(&named("x", vec![value(ident("a")), value(bin(BinOp::Gt, ident("a"), ident("b")))])));
    assert!(!qualifies_as_comparison(&named("x", vec![])));
    assert!(!qualifies_as_comparison(&trigger(vec![value(bin(BinOp::Gt, ident("a"), ident("b")))])));
}
