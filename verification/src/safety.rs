//! Safety scans over the AST.
//!
//! Four independent, read-only checks, each producing a report consumed
//! by external tooling; none of them gates compilation. Only the
//! human-force-gate extraction and the entropy-bound presence check read
//! the program today; the anomaly and topology-surgery checks are
//! placeholders whose fixed report shape is part of the observable
//! contract.

use vstd::prelude::*;

use crate::ast::{ConstraintType, Numeral, Program, SpecConstraint, SpecProgram};
use vstd::seq_lib::*;
use vstd::string::StringExecFns;

verus! {

/// Performs the safety scans.
pub struct SafetyChecker {}

/// Severity of a safety warning.
#[derive(Debug, Clone, Copy, PartialEq, Eq, Structural)]
pub enum Severity {
    Low,
    Medium,
    High,
    Critical,
}

/// Machine-readable code of a safety error.
#[derive(Debug, Clone, Copy, PartialEq, Eq, Structural)]
pub enum SafetyErrorCode {
    EntropyBlowup,
    AnomalyThresholdExceeded,
    TopologySurgeryThrottleExceeded,
    UnauthorizedOperator,
}

/// One required human approval, extracted from a `human_force_gate`
/// constraint.
#[derive(Debug, Clone, PartialEq)]
pub struct HumanForceGate {
    pub operator_name: String,
    pub reason: String,
    pub required_approval: bool,
}

/// Mathematical counterpart of [`HumanForceGate`].
pub struct SpecHumanForceGate {
    pub operator_name: Seq<char>,
    pub reason: Seq<char>,
    pub required_approval: bool,
}

impl DeepView for HumanForceGate {
    type V = SpecHumanForceGate;

    open spec fn deep_view(&self) -> SpecHumanForceGate {
        SpecHumanForceGate {
            operator_name: self.operator_name@,
            reason: self.reason@,
            required_approval: self.required_approval,
        }
    }
}

/// A non-fatal safety warning.
#[derive(Debug, Clone, PartialEq)]
pub struct SafetyWarning {
    pub message: String,
    pub severity: Severity,
}

/// A safety error finding (still reported as data, never fatal).
#[derive(Debug, Clone, PartialEq)]
pub struct SafetyError {
    pub message: String,
    pub code: SafetyErrorCode,
}

/// The report of the human-force-gate scan.
#[derive(Debug, Clone, PartialEq)]
pub struct SafetyReport {
    pub human_force_gates: Vec<HumanForceGate>,
    pub warnings: Vec<SafetyWarning>,
    pub errors: Vec<SafetyError>,
}

/// The report of the entropy-blowup scan. No numeric estimation is
/// performed yet: the estimate and the threshold are always the literal
/// zero, and only the flag carries information.
#[derive(Debug, Clone, PartialEq)]
pub struct EntropyReport {
    pub estimated_entropy: Numeral,
    pub threshold: Numeral,
    pub safe: bool,
}

/// One anomaly finding (none are produced yet).
#[derive(Debug, Clone, PartialEq)]
pub struct Anomaly {
    pub location: String,
    pub value: Numeral,
    pub threshold: Numeral,
}

/// The report of the anomaly scan (a placeholder: always empty).
#[derive(Debug, Clone, PartialEq)]
pub struct AnomalyReport {
    pub anomalies: Vec<Anomaly>,
    pub threshold: Numeral,
}

/// The report of the topology-surgery throttle scan (a placeholder:
/// always safe, with zero counts).
#[derive(Debug, Clone, PartialEq)]
pub struct TopologyReport {
    pub surgery_count: usize,
    pub throttle_limit: usize,
    pub safe: bool,
}

/// The fixed reason attached to every extracted gate.
pub open spec fn sp_gate_reason() -> Seq<char> {
    "marked as human_force_gate"@
}

/// The approvals extracted from a constraint list: one entry, in order,
/// for each constraint of kind `HumanForceGate`, carrying that
/// constraint's name, the fixed reason, and a required approval.
pub open spec fn sp_human_force_gates(cs: Seq<SpecConstraint>) -> Seq<SpecHumanForceGate>
    decreases cs.len(),
{
    if cs.len() == 0 {
        Seq::empty()
    } else {
        let front = sp_human_force_gates(cs.drop_last());
        if cs.last().constraint_type == ConstraintType::HumanForceGate {
            front.push(
                SpecHumanForceGate {
                    operator_name: cs.last().name,
                    reason: sp_gate_reason(),
                    required_approval: true,
                },
            )
        } else {
            front
        }
    }
}

/// A program counts as entropy-safe exactly when it declares no
/// `entropy_bound` constraint: a declared bound marks the program as
/// needing attention, so `safe` reports its absence.
pub open spec fn sp_entropy_safe(p: SpecProgram) -> bool {
    !(exists|k: int|
        0 <= k < p.constraints.len() && (#[trigger] p.constraints[k]).constraint_type
            == ConstraintType::EntropyBound)
}

/// Law: a program with no constraints at all is entropy-safe, and a
/// program containing any `entropy_bound` constraint is not.
pub proof fn lemma_entropy_safety_defaults(p: SpecProgram)
    ensures
        p.constraints.len() == 0 ==> sp_entropy_safe(p),
        (exists|k: int|
            0 <= k < p.constraints.len() && (#[trigger] p.constraints[k]).constraint_type
                == ConstraintType::EntropyBound) ==> !sp_entropy_safe(p),
{
}

/// Law: the extracted approvals are exactly the `human_force_gate`
/// constraints, kept in declaration order, each mapped to an entry that
/// carries the constraint's name, the fixed reason, and a required
/// approval.
pub proof fn lemma_gates_are_the_filtered_constraints(cs: Seq<SpecConstraint>)
    ensures
        sp_human_force_gates(cs) == cs.filter(
            |c: SpecConstraint| c.constraint_type == ConstraintType::HumanForceGate,
        ).map_values(
            |c: SpecConstraint|
                SpecHumanForceGate {
                    operator_name: c.name,
                    reason: sp_gate_reason(),
                    required_approval: true,
                },
        ),
    decreases cs.len(),
{
    reveal(Seq::filter);
    let is_gate = |c: SpecConstraint| c.constraint_type == ConstraintType::HumanForceGate;
    let to_gate = |c: SpecConstraint|
        SpecHumanForceGate {
            operator_name: c.name,
            reason: sp_gate_reason(),
            required_approval: true,
        };
    if cs.len() == 0 {
        assert(cs.filter(is_gate).map_values(to_gate) =~= Seq::<SpecHumanForceGate>::empty());
    } else {
        lemma_gates_are_the_filtered_constraints(cs.drop_last());
        let front = cs.drop_last().filter(is_gate);
        if is_gate(cs.last()) {
            assert(cs.filter(is_gate) =~= front.push(cs.last()));
            assert(front.push(cs.last()).map_values(to_gate) =~= front.map_values(to_gate).push(
                to_gate(cs.last()),
            ));
        } else {
            assert(cs.filter(is_gate) =~= front);
        }
        assert(sp_human_force_gates(cs) =~= cs.filter(is_gate).map_values(to_gate));
    }
}

/// The literal zero, as the placeholder scans report it.
fn zero_numeral() -> (r: Numeral)
    ensures
        r.text@ == "0.0"@,
{
    Numeral { text: String::from_str("0.0") }
}

impl SafetyChecker {
    /// A fresh checker. The scans keep no state between programs.
    pub fn new() -> (r: Self)
        ensures
            r == (SafetyChecker {  }),
    {
        SafetyChecker {}
    }

    /// Extracts one gate entry for every `human_force_gate` constraint of
    /// the program, in declaration order; warnings and errors stay empty.
    pub fn check_human_force_gates(&self, program: &Program) -> (r: SafetyReport)
        ensures
            r.human_force_gates.deep_view() == sp_human_force_gates(
                program.deep_view().constraints,
            ),
            r.warnings@.len() == 0,
            r.errors@.len() == 0,
    {
        let ghost cs = program.deep_view().constraints;
        let mut gates: Vec<HumanForceGate> = Vec::new();
        proof {
            assert(cs.subrange(0, 0) =~= Seq::<SpecConstraint>::empty());
            assert(gates.deep_view() =~= sp_human_force_gates(cs.subrange(0, 0)));
        }
        let mut k: usize = 0;
        while k < program.constraints.len()
            invariant
                0 <= k <= program.constraints.len(),
                cs == program.deep_view().constraints,
                cs.len() == program.constraints.len(),
                gates.deep_view() == sp_human_force_gates(cs.subrange(0, k as int)),
            decreases program.constraints.len() - k,
        {
            let c = &program.constraints[k];
            proof {
                assert(cs[k as int] == program.constraints@[k as int].deep_view());
                assert(cs.subrange(0, k + 1 as int).drop_last() =~= cs.subrange(0, k as int));
                assert(cs.subrange(0, k + 1 as int).last() == cs[k as int]);
            }
            let ghost gates0 = gates;
            match c.constraint_type {
                ConstraintType::HumanForceGate => {
                    let gate = HumanForceGate {
                        operator_name: c.name.clone(),
                        reason: String::from_str("marked as human_force_gate"),
                        required_approval: true,
                    };
                    gates.push(gate);
                    proof {
                        crate::parser::lemma_deep_view_push(gates0, gates, gate);
                    }
                },
                _ => {},
            }
            k = k + 1;
        }
        proof {
            assert(cs.subrange(0, cs.len() as int) =~= cs);
        }
        SafetyReport { human_force_gates: gates, warnings: Vec::new(), errors: Vec::new() }
    }

    /// Reports whether the program is entropy-safe: `safe` is true
    /// exactly when no `entropy_bound` constraint is declared. No numeric
    /// estimate is computed; the estimate and threshold are literal zero.
    pub fn check_entropy_blowup(&self, program: &Program) -> (r: EntropyReport)
        ensures
            r.safe == sp_entropy_safe(program.deep_view()),
            r.estimated_entropy.text@ == "0.0"@,
            r.threshold.text@ == "0.0"@,
    {
        let ghost cs = program.deep_view().constraints;
        let mut found = false;
        let mut k: usize = 0;
        while k < program.constraints.len()
            invariant
                0 <= k <= program.constraints.len(),
                cs == program.deep_view().constraints,
                cs.len() == program.constraints.len(),
                found == exists|m: int|
                    0 <= m < k && (#[trigger] cs[m]).constraint_type
                        == ConstraintType::EntropyBound,
            decreases program.constraints.len() - k,
        {
            let c = &program.constraints[k];
            proof {
                assert(cs[k as int] == program.constraints@[k as int].deep_view());
            }
            match c.constraint_type {
                ConstraintType::EntropyBound => {
                    found = true;
                    proof {
                        assert(cs[k as int].constraint_type == ConstraintType::EntropyBound);
                    }
                },
                _ => {},
            }
            k = k + 1;
        }
        EntropyReport {
            estimated_entropy: zero_numeral(),
            threshold: zero_numeral(),
            safe: !found,
        }
    }

    /// The anomaly scan: a placeholder that always reports no anomalies
    /// and a zero threshold.
    pub fn check_anomaly_thresholds(&self, program: &Program) -> (r: AnomalyReport)
        ensures
            r.anomalies@.len() == 0,
            r.threshold.text@ == "0.0"@,
    {
        let _ = program;
        AnomalyReport { anomalies: Vec::new(), threshold: zero_numeral() }
    }

    /// The topology-surgery throttle scan: a placeholder that always
    /// reports zero surgeries, a zero limit, and safety.
    pub fn check_topology_surgery_throttle(&self, program: &Program) -> (r: TopologyReport)
        ensures
            r.surgery_count == 0,
            r.throttle_limit == 0,
            r.safe == true,
    {
        let _ = program;
        TopologyReport { surgery_count: 0, throttle_limit: 0, safe: true }
    }
}

} // verus!
