//! Tests of the type checker, the IR lowering, the safety scans, and the
//! end-to-end pipeline.

use hpm_dl::codegen::{CodeGenerator, NumericRepresentation};
use hpm_dl::ir::{IrOperatorImplementation, IrOperatorType, IrTarget, ast_to_ir};
use hpm_dl::parser::parse;
use hpm_dl::safety::SafetyChecker;
use hpm_dl::typechecker::{TypeChecker, TypeError};
use hpm_dl::{CompileError, check, compile};

#[test]
fn matching_matrix_shape_typechecks() {
    let program = parse("operator H: hamiltonian { matrix(2, 3, dense) = [[1, 2, 3], [4, 5, 6]] }")
        .unwrap();
    let mut tc = TypeChecker::new();
    let checked = tc.typecheck(program).expect("2 x 3 matches 6 elements");
    assert_eq!(checked.program.operators.len(), 1);
}

#[test]
fn mismatched_matrix_shape_fails_naming_the_operator() {
    let program = parse("operator H: hamiltonian { matrix(2, 2, dense) = [[1, 2, 3], [4, 5, 6]] }")
        .unwrap();
    let mut tc = TypeChecker::new();
    let err = tc.typecheck(program).unwrap_err();
    assert_eq!(
        err,
        TypeError::MatrixSizeMismatch {
            operator: "H".to_string(),
            rows: 2,
            cols: 2,
            data_len: 6,
        }
    );
}

#[test]
fn first_mismatched_operator_is_reported() {
    let source = "operator A: hamiltonian { matrix(1, 1, dense) = [[1]] }\noperator B: hamiltonian { matrix(1, 3, dense) = [[1, 2]] }";
    let program = parse(source).unwrap();
    let err = TypeChecker::new().typecheck(program).unwrap_err();
    match err {
        TypeError::MatrixSizeMismatch { operator, .. } => assert_eq!(operator, "B"),
        other => panic!("unexpected error {:?}", other),
    }
}

#[test]
fn state_with_dimensions_typechecks() {
    let program = parse("state s: dense [2, 2]").unwrap();
    assert!(TypeChecker::new().typecheck(program).is_ok());
}

#[test]
fn state_with_all_dimensions_skipped_fails() {
    let program = parse("state s: dense [99999999999999999999999999]").unwrap();
    let err = TypeChecker::new().typecheck(program).unwrap_err();
    assert_eq!(err, TypeError::MissingStateDimensions);
}

#[test]
fn matrix_wins_over_tensor_network() {
    let source = "operator H: hamiltonian { tensor_net(mps, [2, 4]), matrix(1, 2, dense) = [[3, 4]] }";
    let program = parse(source).unwrap();
    let ir = ast_to_ir(&program);
    let op = &ir.modules[0].operators[0];
    match &op.spec.implementation {
        IrOperatorImplementation::DenseMatrix { data } => {
            let texts: Vec<&str> = data.iter().map(|n| n.text.as_str()).collect();
            assert_eq!(texts, vec!["3", "4"]);
        },
        other => panic!("matrix must win over tensor network, got {:?}", other),
    }
}

#[test]
fn tensor_network_lowers_to_a_bond_chain() {
    let program = parse("operator W: dissipative { tensor_net(mps, [2, 4, 8]) }").unwrap();
    let ir = ast_to_ir(&program);
    let op = &ir.modules[0].operators[0];
    assert_eq!(op.operator_type, IrOperatorType::Dissipative);
    assert_eq!(op.spec.target, IrTarget::CPU);
    match &op.spec.implementation {
        IrOperatorImplementation::TensorNetwork { network } => {
            assert_eq!(network.network_type, "MPS");
            assert!(network.tensors.is_empty());
            assert_eq!(network.bonds.len(), 3);
            for (i, bond) in network.bonds.iter().enumerate() {
                assert_eq!(bond.tensor1, "t");
                assert_eq!(bond.tensor2, "t");
                assert_eq!(bond.index1, i);
                assert_eq!(bond.index2, i + 1);
            }
            assert_eq!(network.bonds[0].dimension, 2);
            assert_eq!(network.bonds[1].dimension, 4);
            assert_eq!(network.bonds[2].dimension, 8);
        },
        other => panic!("expected a tensor network, got {:?}", other),
    }
}

#[test]
fn gpu_kernel_lowers_when_nothing_else_is_declared() {
    let program = parse("operator K: entropy_flow { cuda_kernel(\"evolve\") }").unwrap();
    let ir = ast_to_ir(&program);
    match &ir.modules[0].operators[0].spec.implementation {
        IrOperatorImplementation::CUDAKernel { kernel_name } => {
            assert_eq!(kernel_name, "evolve");
        },
        other => panic!("expected a kernel, got {:?}", other),
    }
}

#[test]
fn bare_operator_lowers_to_an_empty_dense_matrix() {
    let program = parse("operator E: hamiltonian").unwrap();
    let ir = ast_to_ir(&program);
    match &ir.modules[0].operators[0].spec.implementation {
        IrOperatorImplementation::DenseMatrix { data } => assert!(data.is_empty()),
        other => panic!("expected the default dense matrix, got {:?}", other),
    }
}

#[test]
fn lowering_produces_one_main_module() {
    let program = parse("operator A: hamiltonian\noperator B: dissipative").unwrap();
    let ir = ast_to_ir(&program);
    assert_eq!(ir.entry_point, "main");
    assert_eq!(ir.modules.len(), 1);
    assert_eq!(ir.modules[0].name, "main");
    assert!(ir.modules[0].functions.is_empty());
    assert_eq!(ir.modules[0].operators.len(), 2);
    assert_eq!(ir.modules[0].operators[0].name, "A");
    assert_eq!(ir.modules[0].operators[1].name, "B");
}

#[test]
fn compile_runs_the_whole_pipeline() {
    let source = "axiom a: x + y\noperator H: hamiltonian { matrix(1, 1, dense) = [[5]] }\nstate s: dense [2]";
    let ir = compile(source).expect("pipeline should succeed");
    assert_eq!(ir.modules[0].operators.len(), 1);
    let again = compile(source).expect("pipeline should succeed again");
    assert_eq!(ir, again);
}

#[test]
fn compile_reports_syntax_errors() {
    match compile("") {
        Err(CompileError::Syntax(_)) => {},
        other => panic!("expected a syntax error, got {:?}", other),
    }
}

#[test]
fn compile_reports_type_errors() {
    let source = "operator H: hamiltonian { matrix(3, 3, dense) = [[1, 2, 3]] }";
    match compile(source) {
        Err(CompileError::Type(TypeError::MatrixSizeMismatch { operator, rows, cols, data_len })) => {
            assert_eq!(operator, "H");
            assert_eq!((rows, cols, data_len), (3, 3, 3));
        },
        other => panic!("expected a type error, got {:?}", other),
    }
}

#[test]
fn zero_constraints_yield_entropy_safe() {
    let program = parse("axiom a: x").unwrap();
    let report = SafetyChecker::new().check_entropy_blowup(&program);
    assert!(report.safe);
    assert_eq!(report.estimated_entropy.text, "0.0");
    assert_eq!(report.threshold.text, "0.0");
}

#[test]
fn an_entropy_bound_marks_the_program_unsafe() {
    let program = parse("constraint c: entropy_bound 2").unwrap();
    let report = SafetyChecker::new().check_entropy_blowup(&program);
    assert!(!report.safe);
}

#[test]
fn human_force_gates_are_extracted_exactly() {
    let program = parse("constraint g1: human_force_gate x\nconstraint g2: entropy_bound 2")
        .unwrap();
    let report = SafetyChecker::new().check_human_force_gates(&program);
    assert_eq!(report.human_force_gates.len(), 1);
    let gate = &report.human_force_gates[0];
    assert_eq!(gate.operator_name, "g1");
    assert_eq!(gate.reason, "marked as human_force_gate");
    assert!(gate.required_approval);
    assert!(report.warnings.is_empty());
    assert!(report.errors.is_empty());
}

#[test]
fn placeholder_scans_report_their_fixed_shape() {
    let program = parse("axiom a: x").unwrap();
    let checker = SafetyChecker::new();
    let anomaly = checker.check_anomaly_thresholds(&program);
    assert!(anomaly.anomalies.is_empty());
    assert_eq!(anomaly.threshold.text, "0.0");
    let topology = checker.check_topology_surgery_throttle(&program);
    assert_eq!(topology.surgery_count, 0);
    assert_eq!(topology.throttle_limit, 0);
    assert!(topology.safe);
}

#[test]
fn check_combines_the_four_scans() {
    let source = "constraint g1: human_force_gate x\nconstraint b: entropy_bound 2";
    let report = check(source).expect("check should succeed after a parse");
    assert_eq!(report.human_force.human_force_gates.len(), 1);
    assert_eq!(report.human_force.human_force_gates[0].operator_name, "g1");
    assert!(!report.entropy.safe);
    assert!(report.anomaly.anomalies.is_empty());
    assert!(report.topology.safe);
    assert!(check("   ").is_err());
}

#[test]
fn catalog_names_every_operator() {
    let program = parse("operator A: hamiltonian\noperator B: dissipative").unwrap();
    let ir = ast_to_ir(&program);
    let catalog = CodeGenerator::new().generate_operator_catalog(&ir);
    assert_eq!(catalog.operators.len(), 2);
    assert_eq!(catalog.operators[0].name, "A");
    assert_eq!(catalog.operators[0].metadata.description, "operator A");
    assert!(catalog.operators[0].metadata.tags.is_empty());
    assert_eq!(catalog.operators[1].metadata.description, "operator B");
}

#[test]
fn numeric_specs_name_every_operator() {
    let program = parse("operator A: hamiltonian").unwrap();
    let ir = ast_to_ir(&program);
    let specs = CodeGenerator::new().generate_numeric_specs(&ir);
    assert_eq!(specs.specs.len(), 1);
    assert_eq!(specs.specs[0].operator_name, "A");
    match &specs.specs[0].numeric_representation {
        NumericRepresentation::DenseMatrix { rows, cols, data } => {
            assert_eq!((*rows, *cols), (0, 0));
            assert!(data.is_empty());
        },
        other => panic!("expected the placeholder dense form, got {:?}", other),
    }
}

#[test]
fn job_descriptor_carries_a_fresh_identifier_and_defaults() {
    let program = parse("operator A: hamiltonian").unwrap();
    let ir = ast_to_ir(&program);
    let generator = CodeGenerator::new();
    let job = generator.generate_job_descriptor(&ir);
    assert_eq!(job.job_id.len(), 36);
    assert_eq!(job.initial_state.representation, "unknown");
    assert!(job.initial_state.data.is_empty());
    assert!(job.operators.is_empty());
    assert_eq!(job.evolution_params.time_step.text, "0.0");
    assert_eq!(job.evolution_params.max_steps, 0);
    assert_eq!(job.evolution_params.tolerance.text, "0.0");
    assert_eq!(job.evolution_params.truncation.method, "svd");
    assert_eq!(job.evolution_params.truncation.max_bond_dim, 0);
    assert_eq!(job.evolution_params.truncation.tolerance.text, "0.0");
    assert!(job.output_spec.snapshots.is_empty());
    assert!(job.output_spec.final_certificate);
    assert!(!job.output_spec.topology_analysis);
    let second = generator.generate_job_descriptor(&ir);
    assert_eq!(second.job_id.len(), 36);
}
