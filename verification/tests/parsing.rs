//! Tests of the lexer and parser: precedence, statement forms, numerals,
//! defaults, and rejection of malformed input.

use hpm_dl::ast::{
    BinaryOp, Expression, Numeral, Program, SafetyLevel, StateRepresentation, TensorNetworkType,
    TruncationMethod, UnaryOp,
};
use hpm_dl::ast::{ConstraintType, OperatorType};
use hpm_dl::grammar::{HpmDlParser, TokKind};
use hpm_dl::parser::parse;

fn var(name: &str) -> Expression {
    Expression::Variable(name.to_string())
}

fn num(text: &str) -> Expression {
    Expression::Constant(Numeral { text: text.to_string() })
}

fn bin(op: BinaryOp, left: Expression, right: Expression) -> Expression {
    Expression::BinaryOp { op, left: Box::new(left), right: Box::new(right) }
}

fn un(op: UnaryOp, expr: Expression) -> Expression {
    Expression::UnaryOp { op, expr: Box::new(expr) }
}

fn expr_of(source: &str) -> Expression {
    let program = parse(source).expect("program should parse");
    assert_eq!(program.axioms.len(), 1);
    let first = program.axioms.into_iter().next().unwrap();
    first.expression
}

#[test]
fn precedence_mul_binds_tighter_on_the_right() {
    let e = expr_of("axiom e: a + b * c");
    assert_eq!(e, bin(BinaryOp::Add, var("a"), bin(BinaryOp::Mul, var("b"), var("c"))));
}

#[test]
fn precedence_mul_binds_tighter_on_the_left() {
    let e = expr_of("axiom e: a * b + c");
    assert_eq!(e, bin(BinaryOp::Add, bin(BinaryOp::Mul, var("a"), var("b")), var("c")));
}

#[test]
fn unary_prefixes_apply_innermost_first() {
    let e = expr_of("axiom e: - trace a");
    assert_eq!(e, un(UnaryOp::Neg, un(UnaryOp::Trace, var("a"))));
}

#[test]
fn additive_chain_is_left_associative() {
    let e = expr_of("axiom e: a - b + c");
    assert_eq!(
        e,
        bin(BinaryOp::Add, bin(BinaryOp::Sub, var("a"), var("b")), var("c"))
    );
}

#[test]
fn multiplicative_aliases_map_to_their_operators() {
    assert_eq!(
        expr_of("axiom e: a dot b"),
        bin(BinaryOp::Dot, var("a"), var("b"))
    );
    assert_eq!(
        expr_of("axiom e: a \u{b7} b"),
        bin(BinaryOp::Dot, var("a"), var("b"))
    );
    assert_eq!(
        expr_of("axiom e: a otimes b"),
        bin(BinaryOp::Cross, var("a"), var("b"))
    );
    assert_eq!(
        expr_of("axiom e: a tensor b"),
        bin(BinaryOp::Cross, var("a"), var("b"))
    );
    assert_eq!(
        expr_of("axiom e: a x b"),
        bin(BinaryOp::Cross, var("a"), var("b"))
    );
    assert_eq!(
        expr_of("axiom e: a \u{2297} b"),
        bin(BinaryOp::Cross, var("a"), var("b"))
    );
    assert_eq!(
        expr_of("axiom e: a / b"),
        bin(BinaryOp::Div, var("a"), var("b"))
    );
}

#[test]
fn unary_aliases_map_to_their_operators() {
    assert_eq!(expr_of("axiom e: dagger a"), un(UnaryOp::Conjugate, var("a")));
    assert_eq!(expr_of("axiom e: \u{2020} a"), un(UnaryOp::Conjugate, var("a")));
    assert_eq!(expr_of("axiom e: conj a"), un(UnaryOp::Conjugate, var("a")));
    assert_eq!(expr_of("axiom e: T a"), un(UnaryOp::Transpose, var("a")));
    assert_eq!(expr_of("axiom e: transpose a"), un(UnaryOp::Transpose, var("a")));
    assert_eq!(expr_of("axiom e: - a"), un(UnaryOp::Neg, var("a")));
}

#[test]
fn grouping_overrides_precedence() {
    let e = expr_of("axiom e: (a + b) * c");
    assert_eq!(e, bin(BinaryOp::Mul, bin(BinaryOp::Add, var("a"), var("b")), var("c")));
}

#[test]
fn function_calls_carry_their_arguments() {
    let e = expr_of("axiom e: f(a, b + c)");
    assert_eq!(
        e,
        Expression::FunctionCall {
            name: "f".to_string(),
            args: vec![var("a"), bin(BinaryOp::Add, var("b"), var("c"))],
        }
    );
    let e = expr_of("axiom e: f()");
    assert_eq!(e, Expression::FunctionCall { name: "f".to_string(), args: vec![] });
}

#[test]
fn numerals_keep_their_source_text() {
    assert_eq!(expr_of("axiom e: 42"), num("42"));
    assert_eq!(expr_of("axiom e: 0.5"), num("0.5"));
    assert_eq!(expr_of("axiom e: 1e-3"), num("1e-3"));
    assert_eq!(expr_of("axiom e: 2.5E+7"), num("2.5E+7"));
    assert_eq!(expr_of("axiom e: .25"), num(".25"));
}

#[test]
fn empty_input_is_a_syntax_error() {
    assert!(parse("").is_err());
}

#[test]
fn whitespace_only_input_is_a_syntax_error() {
    assert!(parse(" \t\r\n  \n").is_err());
}

#[test]
fn comment_only_input_is_a_syntax_error() {
    assert!(parse("// nothing here\n// still nothing").is_err());
}

#[test]
fn unterminated_string_is_a_syntax_error() {
    let r = parse("operator k: hamiltonian { cuda_kernel(\"oops) }");
    assert!(r.is_err());
}

#[test]
fn unknown_character_is_a_syntax_error() {
    let r = parse("axiom a: x ; axiom b: y");
    assert!(r.is_err());
}

#[test]
fn trailing_junk_is_a_syntax_error() {
    assert!(parse("axiom a: x something_else").is_err());
}

#[test]
fn syntax_error_reports_the_offending_position() {
    let source = "axiom a: x\n%";
    let err = parse(source).unwrap_err();
    assert_eq!(err.pos, 11);
}

#[test]
fn comments_and_whitespace_are_insignificant() {
    let program = parse("  axiom // comment\n  a :\n x // tail\n").expect("should parse");
    assert_eq!(program.axioms.len(), 1);
    assert_eq!(program.axioms[0].name, "a");
    assert_eq!(program.axioms[0].expression, var("x"));
}

#[test]
fn axiom_defaults_are_safe_and_untagged() {
    let program = parse("axiom a: x").unwrap();
    let ax = &program.axioms[0];
    assert_eq!(ax.metadata.safety_level, SafetyLevel::Safe);
    assert!(ax.metadata.tags.is_empty());
    assert!(ax.metadata.description.is_none());
}

#[test]
fn axiom_tags_and_safety_are_read() {
    let program = parse("axiom a: x tags [alg, core] safety dangerous").unwrap();
    let ax = &program.axioms[0];
    assert_eq!(ax.metadata.tags, vec!["alg".to_string(), "core".to_string()]);
    assert_eq!(ax.metadata.safety_level, SafetyLevel::Dangerous);
    let program = parse("axiom a: x safety requires_human_force").unwrap();
    assert_eq!(
        program.axioms[0].metadata.safety_level,
        SafetyLevel::RequiresHumanForce
    );
}

#[test]
fn operator_matrix_is_read_with_flattened_data() {
    let program = parse("operator H: hamiltonian { matrix(2, 2, sparse) = [[1, 0], [0, 1e-3]] }")
        .unwrap();
    let op = &program.operators[0];
    assert_eq!(op.name, "H");
    let m = op.spec.matrix_representation.as_ref().unwrap();
    assert_eq!(m.rows, 2);
    assert_eq!(m.cols, 2);
    assert!(m.sparse);
    let data: Vec<&str> = m.data.as_ref().unwrap().iter().map(|n| n.text.as_str()).collect();
    assert_eq!(data, vec!["1", "0", "0", "1e-3"]);
    assert!(op.spec.tensor_network.is_none());
    assert!(op.spec.gpu_kernel.is_none());
}

#[test]
fn operator_raw_text_spans_the_whole_declaration() {
    let source = "axiom a: x\noperator H: dissipative { cuda_kernel(\"k1\") }\n";
    let program = parse(source).unwrap();
    let op = &program.operators[0];
    assert_eq!(
        op.spec.raw.as_deref(),
        Some("operator H: dissipative { cuda_kernel(\"k1\") }")
    );
    assert_eq!(op.spec.gpu_kernel.as_deref(), Some("k1"));
}

#[test]
fn operator_without_body_has_no_backends() {
    let program = parse("operator F: entropy_flow").unwrap();
    let op = &program.operators[0];
    assert!(op.spec.matrix_representation.is_none());
    assert!(op.spec.tensor_network.is_none());
    assert!(op.spec.gpu_kernel.is_none());
    assert_eq!(op.spec.raw.as_deref(), Some("operator F: entropy_flow"));
}

#[test]
fn operator_body_allows_trailing_comma_and_empty_braces() {
    let program = parse("operator A: hamiltonian { }").unwrap();
    assert!(program.operators[0].spec.matrix_representation.is_none());
    let program = parse("operator B: hamiltonian { cuda_kernel(\"k\"), }").unwrap();
    assert_eq!(program.operators[0].spec.gpu_kernel.as_deref(), Some("k"));
}

#[test]
fn repeated_items_keep_the_last_one_seen() {
    let program = parse(
        "operator H: hamiltonian { cuda_kernel(\"first\"), cuda_kernel(\"second\") }",
    )
    .unwrap();
    assert_eq!(program.operators[0].spec.gpu_kernel.as_deref(), Some("second"));
}

#[test]
fn tensor_network_with_truncation_is_read() {
    let program = parse(
        "operator W: topological_mutation { tensor_net(mera, [2, 4, 8], trunc(qr, 16, 1.5e-8)) }",
    )
    .unwrap();
    let tn = program.operators[0].spec.tensor_network.as_ref().unwrap();
    assert_eq!(tn.network_type, TensorNetworkType::MERA);
    assert_eq!(tn.bond_dimensions, vec![2, 4, 8]);
    let tr = tn.truncation.as_ref().unwrap();
    assert_eq!(tr.method, TruncationMethod::QR);
    assert_eq!(tr.max_bond_dim, 16);
    assert_eq!(tr.tolerance.text, "1.5e-8");
}

#[test]
fn tensor_network_without_truncation_is_read() {
    let program = parse("operator W: dissipative { tensor_net(peps, [3]) }").unwrap();
    let tn = program.operators[0].spec.tensor_network.as_ref().unwrap();
    assert_eq!(tn.network_type, TensorNetworkType::PEPS);
    assert_eq!(tn.bond_dimensions, vec![3]);
    assert!(tn.truncation.is_none());
}

#[test]
fn operator_kinds_are_recognized() {
    let program = parse(
        "operator A: hamiltonian\noperator B: dissipative\noperator C: topological_mutation\noperator D: entropy_flow",
    )
    .unwrap();
    assert_eq!(program.operators[0].operator_type, OperatorType::Hamiltonian);
    assert_eq!(program.operators[1].operator_type, OperatorType::Dissipative);
    assert_eq!(program.operators[2].operator_type, OperatorType::TopologicalMutation);
    assert_eq!(program.operators[3].operator_type, OperatorType::EntropyFlow);
}

#[test]
fn state_is_read_with_reference_and_topology() {
    let source = "state psi: mps [2, 2, 2] hamiltonian = H0 topology { betti = [1, 0, 1], generators = [(dim = 1, repr = \"loop\")] }";
    let program = parse(source).unwrap();
    let st = program.initial_state.as_ref().unwrap();
    assert_eq!(st.psi_0.representation, StateRepresentation::MPS);
    assert_eq!(st.psi_0.dimensions, vec![2, 2, 2]);
    let h0 = st.h_0.as_ref().unwrap();
    assert_eq!(h0.gpu_kernel.as_deref(), Some("H0"));
    assert_eq!(h0.raw.as_deref(), Some("hamiltonian = H0"));
    assert_eq!(st.topology_constraints.len(), 2);
    assert_eq!(st.topology_constraints[0].betti_numbers, Some(vec![1, 0, 1]));
    assert!(st.topology_constraints[0].homology_generators.is_none());
    let gens = st.topology_constraints[1].homology_generators.as_ref().unwrap();
    assert_eq!(gens.len(), 1);
    assert_eq!(gens[0].dimension, 1);
    assert_eq!(gens[0].representation, "loop");
    assert!(st.topology_constraints[1].betti_numbers.is_none());
}

#[test]
fn last_state_declaration_wins() {
    let program = parse("state a: dense [1]\nstate b: sparse [2]").unwrap();
    let st = program.initial_state.as_ref().unwrap();
    assert_eq!(st.psi_0.representation, StateRepresentation::Sparse);
    assert_eq!(st.psi_0.dimensions, vec![2]);
}

#[test]
fn oversized_dimension_entries_are_skipped() {
    let program = parse("state s: dense [99999999999999999999999999, 3]").unwrap();
    let st = program.initial_state.as_ref().unwrap();
    assert_eq!(st.psi_0.dimensions, vec![3]);
}

#[test]
fn oversized_matrix_shape_reads_as_zero() {
    let program =
        parse("operator H: hamiltonian { matrix(99999999999999999999999999, 1, dense) = [[7]] }")
            .unwrap();
    let m = program.operators[0].spec.matrix_representation.as_ref().unwrap();
    assert_eq!(m.rows, 0);
    assert_eq!(m.cols, 1);
}

#[test]
fn constraints_are_read_in_order_with_their_kinds() {
    let source = "constraint c1: entropy_bound 2.5\nconstraint c2: stability_threshold x\nconstraint c3: topology_surgery_threshold 4\nconstraint c4: human_force_gate g";
    let program = parse(source).unwrap();
    assert_eq!(program.constraints.len(), 4);
    assert_eq!(program.constraints[0].name, "c1");
    assert_eq!(program.constraints[0].constraint_type, ConstraintType::EntropyBound);
    assert_eq!(program.constraints[0].expression, num("2.5"));
    assert_eq!(program.constraints[1].constraint_type, ConstraintType::StabilityThreshold);
    assert_eq!(
        program.constraints[2].constraint_type,
        ConstraintType::TopologySurgeryThreshold
    );
    assert_eq!(program.constraints[3].constraint_type, ConstraintType::HumanForceGate);
}

#[test]
fn declaration_order_is_preserved() {
    let source = "axiom a1: x\noperator o1: hamiltonian\naxiom a2: y\nconstraint c1: entropy_bound z";
    let program: Program = parse(source).unwrap();
    assert_eq!(program.axioms.len(), 2);
    assert_eq!(program.axioms[0].name, "a1");
    assert_eq!(program.axioms[1].name, "a2");
    assert_eq!(program.operators.len(), 1);
    assert_eq!(program.constraints.len(), 1);
    assert!(program.initial_state.is_none());
}

#[test]
fn parsing_is_deterministic() {
    let source = "axiom a: x + y * z\noperator H: hamiltonian { matrix(1, 2, dense) = [[1, 2]] }";
    let first = parse(source).unwrap();
    let second = parse(source).unwrap();
    assert_eq!(first, second);
}

#[test]
fn tokenizer_classifies_spans() {
    let chars: Vec<char> = "axiom a: 1.5 // c\n".chars().collect();
    let toks = HpmDlParser::tokenize(&chars).unwrap();
    let kinds: Vec<TokKind> = toks.iter().map(|t| t.kind).collect();
    assert_eq!(
        kinds,
        vec![TokKind::Ident, TokKind::Ident, TokKind::Colon, TokKind::FloatLit]
    );
    assert_eq!((toks[0].lo, toks[0].hi), (0, 5));
    assert_eq!((toks[3].lo, toks[3].hi), (9, 12));
}

#[test]
fn malformed_tags_do_not_attach_and_fail_the_statement_list() {
    assert!(parse("axiom a: x tags [t").is_err());
    assert!(parse("axiom a: x tags oops").is_err());
}

#[test]
fn missing_operator_kind_is_a_syntax_error() {
    assert!(parse("operator H: banana").is_err());
}

#[test]
fn missing_state_dimensions_are_a_syntax_error() {
    assert!(parse("state s: dense").is_err());
}

#[test]
fn invalid_matrix_storage_is_a_syntax_error() {
    assert!(parse("operator H: hamiltonian { matrix(1, 1, diagonal) = [[1]] }").is_err());
}

#[test]
fn truncation_tolerance_must_be_a_float_literal() {
    assert!(parse("operator W: dissipative { tensor_net(mps, [2], trunc(svd, 4, 1)) }").is_err());
    assert!(parse("operator W: dissipative { tensor_net(mps, [2], trunc(svd, 4, 1.0)) }").is_ok());
}

#[test]
fn nested_calls_and_operators_parse_together() {
    let e = expr_of("axiom e: f(g(x), - y) * 2");
    assert_eq!(
        e,
        bin(
            BinaryOp::Mul,
            Expression::FunctionCall {
                name: "f".to_string(),
                args: vec![
                    Expression::FunctionCall { name: "g".to_string(), args: vec![var("x")] },
                    un(UnaryOp::Neg, var("y")),
                ],
            },
            num("2"),
        )
    );
}
