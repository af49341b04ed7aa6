//! Artifact generation from the IR: the operator catalog, the numeric
//! operator specs, and the job descriptor.
//!
//! These are thin, deterministic projections of the IR, except for the
//! job identifier, which is freshly generated for every descriptor.

use vstd::prelude::*;

use crate::ast::Numeral;
use crate::ir::{IrProgram, SpecIrModule, SpecIrOperator};
use vstd::string::StringExecFns;

verus! {

/// Generates the downstream artifacts from an IR program.
pub struct CodeGenerator {}

/// The operator catalog: one entry per IR operator.
#[derive(Debug, PartialEq)]
pub struct OperatorCatalog {
    pub operators: Vec<OperatorEntry>,
}

/// One catalog entry.
#[derive(Debug, PartialEq)]
pub struct OperatorEntry {
    pub name: String,
    pub spec: OperatorSpec,
    pub metadata: OperatorMetadata,
}

/// The catalog's operator specification (an empty placeholder: the
/// catalog only names operators today).
#[derive(Debug, Clone, PartialEq, Eq, Structural)]
pub struct OperatorSpec {}

/// Catalog metadata of one operator.
#[derive(Debug, PartialEq)]
pub struct OperatorMetadata {
    pub description: String,
    pub tags: Vec<String>,
}

/// Mathematical counterpart of [`OperatorEntry`].
pub struct SpecOperatorEntry {
    pub name: Seq<char>,
    pub description: Seq<char>,
    pub tags: Seq<Seq<char>>,
}

impl DeepView for OperatorEntry {
    type V = SpecOperatorEntry;

    open spec fn deep_view(&self) -> SpecOperatorEntry {
        SpecOperatorEntry {
            name: self.name@,
            description: self.metadata.description@,
            tags: self.metadata.tags.deep_view(),
        }
    }
}

/// The numeric operator specs: one per IR operator, all placeholders.
#[derive(Debug, PartialEq)]
pub struct NumericOperatorSpecs {
    pub specs: Vec<NumericSpec>,
}

/// One numeric spec entry.
#[derive(Debug, PartialEq)]
pub struct NumericSpec {
    pub operator_name: String,
    pub numeric_representation: NumericRepresentation,
}

/// A numeric backend representation.
#[derive(Debug, PartialEq)]
pub enum NumericRepresentation {
    DenseMatrix { rows: usize, cols: usize, data: Vec<Numeral> },
    SparseMatrix { nnz: usize, indices: Vec<(usize, usize)>, values: Vec<Numeral> },
    TensorNetwork { network: crate::ir::TensorNetworkSpec },
}

/// The job descriptor handed to the execution runtime.
#[derive(Debug, PartialEq)]
pub struct JobDescriptor {
    pub job_id: String,
    pub initial_state: StateDescriptor,
    pub operators: Vec<OperatorDescriptor>,
    pub evolution_params: EvolutionParams,
    pub output_spec: OutputSpec,
}

/// The serialized initial state of a job.
#[derive(Debug, PartialEq)]
pub struct StateDescriptor {
    pub representation: String,
    pub data: Vec<u8>,
}

/// One operator reference of a job.
#[derive(Debug, PartialEq)]
pub struct OperatorDescriptor {
    pub name: String,
    pub spec_ref: String,
}

/// Evolution parameters of a job. Numeric fields keep their source-text
/// form, as everywhere in this front end.
#[derive(Debug, PartialEq)]
pub struct EvolutionParams {
    pub time_step: Numeral,
    pub max_steps: usize,
    pub tolerance: Numeral,
    pub truncation: TruncationParams,
}

/// Truncation parameters of a job.
#[derive(Debug, PartialEq)]
pub struct TruncationParams {
    pub method: String,
    pub max_bond_dim: usize,
    pub tolerance: Numeral,
}

/// Output requests of a job.
#[derive(Debug, PartialEq)]
pub struct OutputSpec {
    pub snapshots: Vec<SnapshotSpec>,
    pub final_certificate: bool,
    pub topology_analysis: bool,
}

/// One requested snapshot.
#[derive(Debug, PartialEq)]
pub struct SnapshotSpec {
    pub time: Numeral,
    pub format: String,
}

/// The operators of all IR modules, in module order.
pub open spec fn sp_all_operators(mods: Seq<SpecIrModule>) -> Seq<SpecIrOperator>
    decreases mods.len(),
{
    if mods.len() == 0 {
        Seq::empty()
    } else {
        sp_all_operators(mods.drop_last()) + mods.last().operators
    }
}

/// The catalog entry of one IR operator: its name, a description that
/// prefixes the name with `operator `, and no tags.
pub open spec fn sp_catalog_entry(op: SpecIrOperator) -> SpecOperatorEntry {
    SpecOperatorEntry {
        name: op.name,
        description: "operator "@ + op.name,
        tags: Seq::empty(),
    }
}

/// The catalog entries of an IR program, one per operator, in order.
pub open spec fn sp_catalog(ops: Seq<SpecIrOperator>) -> Seq<SpecOperatorEntry> {
    Seq::new(ops.len(), |i: int| sp_catalog_entry(ops[i]))
}

/// Relies on `uuid::Uuid::new_v4` and its `Display` form: a fresh
/// version-4 identifier always renders as the 36-character hyphenated
/// lowercase-hexadecimal form. Nothing further can be promised of a
/// random value.
#[verifier::external_body]
fn fresh_job_id() -> (r: String)
    ensures
        r@.len() == 36,
{
    uuid::Uuid::new_v4().to_string()
}

/// Collects the operators of every module of an IR program, in order.
fn all_operators_of(ir: &IrProgram) -> (r: Vec<&crate::ir::IrOperator>)
    ensures
        r.deep_view() =~= sp_all_operators(ir.deep_view().modules),
{
    let ghost mods = ir.deep_view().modules;
    let mut out: Vec<&crate::ir::IrOperator> = Vec::new();
    proof {
        assert(mods.subrange(0, 0) =~= Seq::<SpecIrModule>::empty());
        assert(out.deep_view() =~= sp_all_operators(mods.subrange(0, 0)));
    }
    let mut k: usize = 0;
    while k < ir.modules.len()
        invariant
            0 <= k <= ir.modules@.len(),
            mods == ir.deep_view().modules,
            mods.len() == ir.modules@.len(),
            out.deep_view() =~= sp_all_operators(mods.subrange(0, k as int)),
        decreases ir.modules@.len() - k,
    {
        let md = &ir.modules[k];
        proof {
            assert(mods[k as int] == ir.modules@[k as int].deep_view());
        }
        let ghost outer0 = out.deep_view();
        let mut j: usize = 0;
        while j < md.operators.len()
            invariant
                0 <= j <= md.operators@.len(),
                mods[k as int].operators.len() == md.operators@.len(),
                mods[k as int] == md.deep_view(),
                out.deep_view() =~= outer0 + mods[k as int].operators.subrange(0, j as int),
            decreases md.operators@.len() - j,
        {
            let ghost out0 = out;
            let opref = &md.operators[j];
            out.push(opref);
            proof {
                crate::parser::lemma_deep_view_push(out0, out, opref);
                assert(opref.deep_view() == mods[k as int].operators[j as int]);
                assert(out.deep_view() =~= outer0 + mods[k as int].operators.subrange(
                    0,
                    j + 1 as int,
                ));
            }
            j = j + 1;
        }
        proof {
            assert(mods[k as int].operators.subrange(0, md.operators@.len() as int)
                =~= mods[k as int].operators);
            assert(mods.subrange(0, k + 1 as int).drop_last() =~= mods.subrange(0, k as int));
            assert(mods.subrange(0, k + 1 as int).last() == mods[k as int]);
            assert(out.deep_view() =~= sp_all_operators(mods.subrange(0, k + 1 as int)));
        }
        k = k + 1;
    }
    proof {
        assert(mods.subrange(0, mods.len() as int) =~= mods);
    }
    out
}

impl CodeGenerator {
    /// A fresh generator. Generation keeps no state between programs.
    pub fn new() -> (r: Self)
        ensures
            r == (CodeGenerator {  }),
    {
        CodeGenerator {}
    }

    /// Builds the operator catalog: one entry per IR operator across all
    /// modules, in order, each naming the operator and describing it as
    /// `operator NAME`, with no tags.
    pub fn generate_operator_catalog(&self, ir: &IrProgram) -> (r: OperatorCatalog)
        ensures
            r.operators.deep_view() == sp_catalog(sp_all_operators(ir.deep_view().modules)),
    {
        let ops = all_operators_of(ir);
        let ghost all = sp_all_operators(ir.deep_view().modules);
        let mut entries: Vec<OperatorEntry> = Vec::new();
        let mut k: usize = 0;
        while k < ops.len()
            invariant
                0 <= k <= ops@.len(),
                ops.deep_view() =~= all,
                all.len() == ops@.len(),
                entries.deep_view() =~= sp_catalog(all).subrange(0, k as int),
            decreases ops@.len() - k,
        {
            let ghost entries0 = entries;
            let op = ops[k];
            proof {
                assert(ops@[k as int].deep_view() == all[k as int]);
            }
            let description = String::from_str("operator ").concat(op.name.as_str());
            let entry = OperatorEntry {
                name: op.name.clone(),
                spec: OperatorSpec {},
                metadata: OperatorMetadata { description, tags: Vec::new() },
            };
            entries.push(entry);
            proof {
                crate::parser::lemma_deep_view_push(entries0, entries, entry);
                assert(entry.deep_view().tags =~= Seq::<Seq<char>>::empty());
                assert(entry.deep_view() == sp_catalog_entry(all[k as int]));
                assert(entries.deep_view() =~= sp_catalog(all).subrange(0, k + 1 as int));
            }
            k = k + 1;
        }
        proof {
            assert(sp_catalog(all).subrange(0, all.len() as int) =~= sp_catalog(all));
        }
        OperatorCatalog { operators: entries }
    }

    /// Builds the numeric operator specs: one per IR operator across all
    /// modules, in order, each naming its operator and carrying the
    /// placeholder empty dense representation.
    pub fn generate_numeric_specs(&self, ir: &IrProgram) -> (r: NumericOperatorSpecs)
        ensures
            r.specs@.len() == sp_all_operators(ir.deep_view().modules).len(),
            forall|k: int|
                0 <= k < r.specs@.len() ==> {
                    let s = #[trigger] r.specs@[k];
                    &&& s.operator_name@ == sp_all_operators(ir.deep_view().modules)[k].name
                    &&& s.numeric_representation matches NumericRepresentation::DenseMatrix {
                        rows, cols, data } && rows == 0 && cols == 0 && data@.len() == 0
                },
    {
        let ops = all_operators_of(ir);
        let ghost all = sp_all_operators(ir.deep_view().modules);
        let mut specs: Vec<NumericSpec> = Vec::new();
        let mut k: usize = 0;
        while k < ops.len()
            invariant
                0 <= k <= ops@.len(),
                ops.deep_view() =~= all,
                all.len() == ops@.len(),
                specs@.len() == k,
                forall|m: int|
                    0 <= m < k ==> {
                        let s = #[trigger] specs@[m];
                        &&& s.operator_name@ == all[m].name
                        &&& s.numeric_representation matches NumericRepresentation::DenseMatrix {
                            rows, cols, data } && rows == 0 && cols == 0 && data@.len() == 0
                    },
            decreases ops@.len() - k,
        {
            let op = ops[k];
            proof {
                assert(ops@[k as int].deep_view() == all[k as int]);
            }
            let data: Vec<Numeral> = Vec::new();
            specs.push(
                NumericSpec {
                    operator_name: op.name.clone(),
                    numeric_representation: NumericRepresentation::DenseMatrix {
                        rows: 0,
                        cols: 0,
                        data,
                    },
                },
            );
            k = k + 1;
        }
        NumericOperatorSpecs { specs }
    }

    /// Builds a job descriptor: a freshly generated 36-character job
    /// identifier, and otherwise the documented defaults — an unknown,
    /// empty initial state, no operators, zero evolution parameters with
    /// an `svd` truncation, and an output spec requesting only the final
    /// certificate.
    pub fn generate_job_descriptor(&self, ir: &IrProgram) -> (r: JobDescriptor)
        ensures
            r.job_id@.len() == 36,
            r.initial_state.representation@ == "unknown"@,
            r.initial_state.data@ == Seq::<u8>::empty(),
            r.operators@.len() == 0,
            r.evolution_params.time_step.text@ == "0.0"@,
            r.evolution_params.max_steps == 0,
            r.evolution_params.tolerance.text@ == "0.0"@,
            r.evolution_params.truncation.method@ == "svd"@,
            r.evolution_params.truncation.max_bond_dim == 0,
            r.evolution_params.truncation.tolerance.text@ == "0.0"@,
            r.output_spec.snapshots@.len() == 0,
            r.output_spec.final_certificate == true,
            r.output_spec.topology_analysis == false,
    {
        let _ = ir;
        JobDescriptor {
            job_id: fresh_job_id(),
            initial_state: StateDescriptor {
                representation: String::from_str("unknown"),
                data: Vec::new(),
            },
            operators: Vec::new(),
            evolution_params: EvolutionParams {
                time_step: Numeral { text: String::from_str("0.0") },
                max_steps: 0,
                tolerance: Numeral { text: String::from_str("0.0") },
                truncation: TruncationParams {
                    method: String::from_str("svd"),
                    max_bond_dim: 0,
                    tolerance: Numeral { text: String::from_str("0.0") },
                },
            },
            output_spec: OutputSpec {
                snapshots: Vec::new(),
                final_certificate: true,
                topology_analysis: false,
            },
        }
    }
}

} // verus!
