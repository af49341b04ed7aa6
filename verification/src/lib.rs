//! Front-end compiler for HPM-DL, a small declarative language describing
//! physical-simulation jobs: algebraic axioms, quantum/tensor operators,
//! an initial state, and safety constraints.
//!
//! The pipeline is: lexing and parsing of source text into a typed AST,
//! a shallow type-consistency check, an independent safety scan, and a
//! lowering of the AST into a normalized intermediate representation (IR)
//! in which each operator is resolved to exactly one backend
//! implementation. Every stage's result is pinned to a mathematical
//! description of the language, so compiling the same source always
//! yields the same IR.

pub mod ast;
pub mod codegen;
pub mod grammar;
pub mod ir;
pub mod packager;
pub mod parser;
pub mod safety;
pub mod semantic;
pub mod typechecker;

use vstd::prelude::*;

use crate::ir::{IrProgram, SpecIrProgram, ast_to_ir, sp_lower};
use crate::parser::{SyntaxError, parse, sp_program};
use crate::safety::{
    AnomalyReport, EntropyReport, SafetyChecker, SafetyReport, TopologyReport, sp_entropy_safe,
    sp_human_force_gates,
};
use crate::typechecker::{SpecTypeError, TypeChecker, TypeError, sp_typecheck};

verus! {

/// A fatal compilation error: a syntax error aborts before any AST
/// exists; a type error aborts before lowering. No partial IR is ever
/// produced.
#[derive(Debug, Clone, PartialEq)]
pub enum CompileError {
    Syntax(SyntaxError),
    Type(TypeError),
}

/// Mathematical counterpart of [`CompileError`].
pub enum SpecCompileError {
    Syntax(int),
    Type(SpecTypeError),
}

impl DeepView for CompileError {
    type V = SpecCompileError;

    open spec fn deep_view(&self) -> SpecCompileError {
        match self {
            CompileError::Syntax(e) => SpecCompileError::Syntax(e.pos as int),
            CompileError::Type(e) => SpecCompileError::Type(e.deep_view()),
        }
    }
}

/// What compiling a source text yields: the IR of the parsed and
/// type-checked program, or the first error of the pipeline.
pub open spec fn sp_compile(src: Seq<char>) -> Result<SpecIrProgram, SpecCompileError> {
    match sp_program(src) {
        Err(p) => Err(SpecCompileError::Syntax(p)),
        Ok(prog) => match sp_typecheck(prog) {
            Err(e) => Err(SpecCompileError::Type(e)),
            Ok(()) => Ok(sp_lower(prog)),
        },
    }
}

/// Runs the whole compilation pipeline: parse, type check, lower.
///
/// The result is exactly what [`sp_compile`] derives from the source
/// text, stage for stage; in particular, identical sources always
/// compile to identical IR.
pub fn compile(source: &str) -> (r: Result<IrProgram, CompileError>)
    ensures
        match sp_compile(source@) {
            Ok(ir) => r is Ok && r->Ok_0.deep_view() == ir,
            Err(e) => r is Err && r->Err_0.deep_view() == e,
        },
{
    match parse(source) {
        Err(e) => Err(CompileError::Syntax(e)),
        Ok(program) => {
            let mut tc = TypeChecker::new();
            match tc.typecheck(program) {
                Err(e) => Err(CompileError::Type(e)),
                Ok(checked) => Ok(ast_to_ir(&checked.program)),
            }
        },
    }
}

/// The combined safety report of one `check` run: the four scans'
/// results, side by side.
#[derive(Debug, Clone, PartialEq)]
pub struct CheckReport {
    pub human_force: SafetyReport,
    pub entropy: EntropyReport,
    pub anomaly: AnomalyReport,
    pub topology: TopologyReport,
}

/// Parses a source text and runs the four safety scans on it.
///
/// Safety findings never fail the run: after a successful parse the
/// report always comes back, and only a syntax error is fatal.
pub fn check(source: &str) -> (r: Result<CheckReport, SyntaxError>)
    ensures
        match sp_program(source@) {
            Err(pos) => r is Err && r->Err_0.pos as int == pos,
            Ok(p) => r is Ok && {
                let rep = r->Ok_0;
                &&& rep.human_force.human_force_gates.deep_view() == sp_human_force_gates(
                    p.constraints,
                )
                &&& rep.human_force.warnings@.len() == 0
                &&& rep.human_force.errors@.len() == 0
                &&& rep.entropy.safe == sp_entropy_safe(p)
                &&& rep.entropy.estimated_entropy.text@ == "0.0"@
                &&& rep.entropy.threshold.text@ == "0.0"@
                &&& rep.anomaly.anomalies@.len() == 0
                &&& rep.anomaly.threshold.text@ == "0.0"@
                &&& rep.topology.surgery_count == 0
                &&& rep.topology.throttle_limit == 0
                &&& rep.topology.safe
            },
        },
{
    match parse(source) {
        Err(e) => Err(e),
        Ok(program) => {
            let checker = SafetyChecker::new();
            let human_force = checker.check_human_force_gates(&program);
            let entropy = checker.check_entropy_blowup(&program);
            let anomaly = checker.check_anomaly_thresholds(&program);
            let topology = checker.check_topology_surgery_throttle(&program);
            Ok(CheckReport { human_force, entropy, anomaly, topology })
        },
    }
}

/// Law: the pipeline is deterministic. A source text that compiles at
/// all compiles to exactly one IR program; re-running on identical input
/// yields an identical result.
pub proof fn lemma_compile_deterministic(src: Seq<char>, ir1: SpecIrProgram, ir2: SpecIrProgram)
    requires
        sp_compile(src) == Ok::<SpecIrProgram, SpecCompileError>(ir1),
        sp_compile(src) == Ok::<SpecIrProgram, SpecCompileError>(ir2),
    ensures
        ir1 == ir2,
{
}

} // verus!
