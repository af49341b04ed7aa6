//! Abstract syntax tree for HPM-DL programs.
//!
//! Each executable type has a mathematical counterpart (`Spec*`) used by the
//! contracts of the parser and of the later pipeline stages; `deep_view`
//! maps one to the other. Numeric literals are kept as their exact source
//! text (see [`Numeral`]): the front end never computes with them, and the
//! source text is the lossless description handed to downstream consumers.

use vstd::prelude::*;

verus! {

broadcast use {
    vstd::std_specs::vec::axiom_vec_decreases_to_view,
    vstd::seq::axiom_seq_index_decreases,
    vstd::seq::axiom_seq_subrange_decreases,
};

/// Safety classification of an axiom.
#[derive(Debug, Clone, Copy, PartialEq, Eq, Structural)]
pub enum SafetyLevel {
    Safe,
    RequiresHumanForce,
    Dangerous,
}

/// Kind of a declared operator.
#[derive(Debug, Clone, Copy, PartialEq, Eq, Structural)]
pub enum OperatorType {
    Hamiltonian,
    Dissipative,
    TopologicalMutation,
    EntropyFlow,
}

/// Binary operators of the expression language. `Pow` is reserved by the
/// data model but not reachable from any surface operator.
#[derive(Debug, Clone, Copy, PartialEq, Eq, Structural)]
pub enum BinaryOp {
    Add,
    Sub,
    Mul,
    Div,
    Pow,
    Dot,
    Cross,
}

/// Unary prefix operators of the expression language.
#[derive(Debug, Clone, Copy, PartialEq, Eq, Structural)]
pub enum UnaryOp {
    Neg,
    Transpose,
    Conjugate,
    Trace,
}

/// Tensor representation of the initial state.
#[derive(Debug, Clone, Copy, PartialEq, Eq, Structural)]
pub enum StateRepresentation {
    MPS,
    PEPS,
    Dense,
    Sparse,
}

/// Kind of a declared constraint.
#[derive(Debug, Clone, Copy, PartialEq, Eq, Structural)]
pub enum ConstraintType {
    EntropyBound,
    StabilityThreshold,
    TopologySurgeryThreshold,
    HumanForceGate,
}

/// Kind of a tensor-network decomposition.
#[derive(Debug, Clone, Copy, PartialEq, Eq, Structural)]
pub enum TensorNetworkType {
    MPS,
    PEPS,
    MERA,
}

/// Method used to truncate a tensor network.
#[derive(Debug, Clone, Copy, PartialEq, Eq, Structural)]
pub enum TruncationMethod {
    SVD,
    QR,
    RG,
}

/// A numeric literal, kept verbatim as the token text from the source
/// (for example `"2"`, `"0.5"`, `"1e-3"`). The front end only describes
/// computations, so no numeric value is ever derived from it here.
#[derive(Debug, Clone, PartialEq)]
pub struct Numeral {
    pub text: String,
}

impl DeepView for Numeral {
    type V = Seq<char>;

    open spec fn deep_view(&self) -> Seq<char> {
        self.text@
    }
}

/// An expression tree. Ownership is a strict tree: no sharing, no cycles.
/// `Raw` is an explicit escape hatch for text that reached the builder
/// without a dedicated case; the parser of this crate never produces it,
/// but it remains part of the data model consumed downstream.
#[derive(Debug, PartialEq)]
pub enum Expression {
    Variable(String),
    Constant(Numeral),
    BinaryOp { op: BinaryOp, left: Box<Expression>, right: Box<Expression> },
    UnaryOp { op: UnaryOp, expr: Box<Expression> },
    FunctionCall { name: String, args: Vec<Expression> },
    Raw(String),
}

/// Mathematical counterpart of [`Expression`]. Children sit in a `Seq`:
/// a binary node carries exactly `[left, right]`, a unary node `[operand]`.
pub enum SpecExpr {
    Variable(Seq<char>),
    Constant(Seq<char>),
    BinaryOp { op: BinaryOp, operands: Seq<SpecExpr> },
    UnaryOp { op: UnaryOp, operands: Seq<SpecExpr> },
    FunctionCall { name: Seq<char>, args: Seq<SpecExpr> },
    Raw(Seq<char>),
}

impl SpecExpr {
    /// Convenience constructor for a binary node.
    pub open spec fn bin(op: BinaryOp, left: SpecExpr, right: SpecExpr) -> SpecExpr {
        SpecExpr::BinaryOp { op, operands: seq![left, right] }
    }

    /// Convenience constructor for a unary node.
    pub open spec fn un(op: UnaryOp, operand: SpecExpr) -> SpecExpr {
        SpecExpr::UnaryOp { op, operands: seq![operand] }
    }
}

/// Views of the elements of an expression sequence, in order.
pub open spec fn exprs_view(es: Seq<Expression>) -> Seq<SpecExpr>
    decreases es,
{
    if es.len() == 0 {
        Seq::empty()
    } else {
        seq![expr_view(es[0])] + exprs_view(es.drop_first())
    }
}

/// Recursive view of an expression tree.
pub open spec fn expr_view(e: Expression) -> SpecExpr
    decreases e,
{
    match e {
        Expression::Variable(name) => SpecExpr::Variable(name@),
        Expression::Constant(n) => SpecExpr::Constant(n.text@),
        Expression::BinaryOp { op, left, right } => SpecExpr::BinaryOp {
            op,
            operands: seq![expr_view(*left), expr_view(*right)],
        },
        Expression::UnaryOp { op, expr } => SpecExpr::UnaryOp {
            op,
            operands: seq![expr_view(*expr)],
        },
        Expression::FunctionCall { name, args } => SpecExpr::FunctionCall {
            name: name@,
            args: exprs_view(args@),
        },
        Expression::Raw(text) => SpecExpr::Raw(text@),
    }
}

impl DeepView for Expression {
    type V = SpecExpr;

    open spec fn deep_view(&self) -> SpecExpr {
        expr_view(*self)
    }
}

/// Metadata attached to an axiom. `description` has no surface syntax yet
/// and is always `None` after parsing.
#[derive(Debug, Clone, PartialEq)]
pub struct AxiomMetadata {
    pub description: Option<String>,
    pub tags: Vec<String>,
    pub safety_level: SafetyLevel,
}

pub struct SpecAxiomMetadata {
    pub description: Option<Seq<char>>,
    pub tags: Seq<Seq<char>>,
    pub safety_level: SafetyLevel,
}

impl DeepView for AxiomMetadata {
    type V = SpecAxiomMetadata;

    open spec fn deep_view(&self) -> SpecAxiomMetadata {
        SpecAxiomMetadata {
            description: match self.description {
                Some(d) => Some(d@),
                None => None,
            },
            tags: self.tags.deep_view(),
            safety_level: self.safety_level,
        }
    }
}

/// A named algebraic statement with a safety classification.
#[derive(Debug, PartialEq)]
pub struct Axiom {
    pub name: String,
    pub expression: Expression,
    pub metadata: AxiomMetadata,
}

pub struct SpecAxiom {
    pub name: Seq<char>,
    pub expression: SpecExpr,
    pub metadata: SpecAxiomMetadata,
}

impl DeepView for Axiom {
    type V = SpecAxiom;

    open spec fn deep_view(&self) -> SpecAxiom {
        SpecAxiom {
            name: self.name@,
            expression: self.expression.deep_view(),
            metadata: self.metadata.deep_view(),
        }
    }
}

/// A matrix backend description: shape, declared storage, and optional
/// flattened row-major literal data.
#[derive(Debug, Clone, PartialEq)]
pub struct MatrixSpec {
    pub rows: usize,
    pub cols: usize,
    pub sparse: bool,
    pub data: Option<Vec<Numeral>>,
}

pub struct SpecMatrixSpec {
    pub rows: usize,
    pub cols: usize,
    pub sparse: bool,
    pub data: Option<Seq<Seq<char>>>,
}

impl DeepView for MatrixSpec {
    type V = SpecMatrixSpec;

    open spec fn deep_view(&self) -> SpecMatrixSpec {
        SpecMatrixSpec {
            rows: self.rows,
            cols: self.cols,
            sparse: self.sparse,
            data: match self.data {
                Some(d) => Some(d.deep_view()),
                None => None,
            },
        }
    }
}

/// Truncation policy of a tensor network.
#[derive(Debug, Clone, PartialEq)]
pub struct TruncationSpec {
    pub method: TruncationMethod,
    pub max_bond_dim: usize,
    pub tolerance: Numeral,
}

pub struct SpecTruncationSpec {
    pub method: TruncationMethod,
    pub max_bond_dim: usize,
    pub tolerance: Seq<char>,
}

impl DeepView for TruncationSpec {
    type V = SpecTruncationSpec;

    open spec fn deep_view(&self) -> SpecTruncationSpec {
        SpecTruncationSpec {
            method: self.method,
            max_bond_dim: self.max_bond_dim,
            tolerance: self.tolerance.text@,
        }
    }
}

/// A tensor-network backend description.
#[derive(Debug, Clone, PartialEq)]
pub struct TensorNetworkSpec {
    pub network_type: TensorNetworkType,
    pub bond_dimensions: Vec<usize>,
    pub truncation: Option<TruncationSpec>,
}

pub struct SpecTensorNetworkSpec {
    pub network_type: TensorNetworkType,
    pub bond_dimensions: Seq<usize>,
    pub truncation: Option<SpecTruncationSpec>,
}

impl DeepView for TensorNetworkSpec {
    type V = SpecTensorNetworkSpec;

    open spec fn deep_view(&self) -> SpecTensorNetworkSpec {
        SpecTensorNetworkSpec {
            network_type: self.network_type,
            bond_dimensions: self.bond_dimensions@,
            truncation: match self.truncation {
                Some(t) => Some(t.deep_view()),
                None => None,
            },
        }
    }
}

/// The up-to-three mutually optional backend descriptions of an operator,
/// plus the raw source text of the whole declaration (kept for diagnostics
/// and provenance, not for recompilation).
#[derive(Debug, Clone, PartialEq)]
pub struct OperatorSpec {
    pub matrix_representation: Option<MatrixSpec>,
    pub tensor_network: Option<TensorNetworkSpec>,
    pub gpu_kernel: Option<String>,
    pub raw: Option<String>,
}

pub struct SpecOperatorSpec {
    pub matrix_representation: Option<SpecMatrixSpec>,
    pub tensor_network: Option<SpecTensorNetworkSpec>,
    pub gpu_kernel: Option<Seq<char>>,
    pub raw: Option<Seq<char>>,
}

impl DeepView for OperatorSpec {
    type V = SpecOperatorSpec;

    open spec fn deep_view(&self) -> SpecOperatorSpec {
        SpecOperatorSpec {
            matrix_representation: match self.matrix_representation {
                Some(m) => Some(m.deep_view()),
                None => None,
            },
            tensor_network: match self.tensor_network {
                Some(t) => Some(t.deep_view()),
                None => None,
            },
            gpu_kernel: match self.gpu_kernel {
                Some(k) => Some(k@),
                None => None,
            },
            raw: match self.raw {
                Some(r) => Some(r@),
                None => None,
            },
        }
    }
}

/// A named physical transformation with its backend descriptions.
#[derive(Debug, Clone, PartialEq)]
pub struct Operator {
    pub name: String,
    pub operator_type: OperatorType,
    pub spec: OperatorSpec,
}

pub struct SpecOperator {
    pub name: Seq<char>,
    pub operator_type: OperatorType,
    pub spec: SpecOperatorSpec,
}

impl DeepView for Operator {
    type V = SpecOperator;

    open spec fn deep_view(&self) -> SpecOperator {
        SpecOperator {
            name: self.name@,
            operator_type: self.operator_type,
            spec: self.spec.deep_view(),
        }
    }
}

/// Representation and dimension list of a state.
#[derive(Debug, Clone, PartialEq)]
pub struct StateSpec {
    pub representation: StateRepresentation,
    pub dimensions: Vec<usize>,
}

pub struct SpecStateSpec {
    pub representation: StateRepresentation,
    pub dimensions: Seq<usize>,
}

impl DeepView for StateSpec {
    type V = SpecStateSpec;

    open spec fn deep_view(&self) -> SpecStateSpec {
        SpecStateSpec { representation: self.representation, dimensions: self.dimensions@ }
    }
}

/// One homology generator of a topology constraint.
#[derive(Debug, Clone, PartialEq)]
pub struct HomologyGenerator {
    pub dimension: usize,
    pub representation: String,
}

pub struct SpecHomologyGenerator {
    pub dimension: usize,
    pub representation: Seq<char>,
}

impl DeepView for HomologyGenerator {
    type V = SpecHomologyGenerator;

    open spec fn deep_view(&self) -> SpecHomologyGenerator {
        SpecHomologyGenerator {
            dimension: self.dimension,
            representation: self.representation@,
        }
    }
}

/// A topological side condition on the initial state: an optional Betti
/// number sequence or an optional list of homology generators.
#[derive(Debug, Clone, PartialEq)]
pub struct TopologyConstraint {
    pub betti_numbers: Option<Vec<usize>>,
    pub homology_generators: Option<Vec<HomologyGenerator>>,
}

pub struct SpecTopologyConstraint {
    pub betti_numbers: Option<Seq<usize>>,
    pub homology_generators: Option<Seq<SpecHomologyGenerator>>,
}

impl DeepView for TopologyConstraint {
    type V = SpecTopologyConstraint;

    open spec fn deep_view(&self) -> SpecTopologyConstraint {
        SpecTopologyConstraint {
            betti_numbers: match self.betti_numbers {
                Some(b) => Some(b@),
                None => None,
            },
            homology_generators: match self.homology_generators {
                Some(g) => Some(g.deep_view()),
                None => None,
            },
        }
    }
}

/// The declared initial state: its tensor representation, an optional
/// reference Hamiltonian, and its topology constraints.
#[derive(Debug, Clone, PartialEq)]
pub struct InitialState {
    pub psi_0: StateSpec,
    pub h_0: Option<OperatorSpec>,
    pub topology_constraints: Vec<TopologyConstraint>,
}

pub struct SpecInitialState {
    pub psi_0: SpecStateSpec,
    pub h_0: Option<SpecOperatorSpec>,
    pub topology_constraints: Seq<SpecTopologyConstraint>,
}

impl DeepView for InitialState {
    type V = SpecInitialState;

    open spec fn deep_view(&self) -> SpecInitialState {
        SpecInitialState {
            psi_0: self.psi_0.deep_view(),
            h_0: match self.h_0 {
                Some(h) => Some(h.deep_view()),
                None => None,
            },
            topology_constraints: self.topology_constraints.deep_view(),
        }
    }
}

/// A named safety or stability constraint with its bound expression.
#[derive(Debug, PartialEq)]
pub struct Constraint {
    pub name: String,
    pub expression: Expression,
    pub constraint_type: ConstraintType,
}

pub struct SpecConstraint {
    pub name: Seq<char>,
    pub expression: SpecExpr,
    pub constraint_type: ConstraintType,
}

impl DeepView for Constraint {
    type V = SpecConstraint;

    open spec fn deep_view(&self) -> SpecConstraint {
        SpecConstraint {
            name: self.name@,
            expression: self.expression.deep_view(),
            constraint_type: self.constraint_type,
        }
    }
}

/// Root of the AST. Declaration order is preserved; at most one initial
/// state is kept (the last declaration wins when several occur).
#[derive(Debug, PartialEq)]
pub struct Program {
    pub axioms: Vec<Axiom>,
    pub operators: Vec<Operator>,
    pub initial_state: Option<InitialState>,
    pub constraints: Vec<Constraint>,
}

pub struct SpecProgram {
    pub axioms: Seq<SpecAxiom>,
    pub operators: Seq<SpecOperator>,
    pub initial_state: Option<SpecInitialState>,
    pub constraints: Seq<SpecConstraint>,
}

impl DeepView for Program {
    type V = SpecProgram;

    open spec fn deep_view(&self) -> SpecProgram {
        SpecProgram {
            axioms: self.axioms.deep_view(),
            operators: self.operators.deep_view(),
            initial_state: match self.initial_state {
                Some(s) => Some(s.deep_view()),
                None => None,
            },
            constraints: self.constraints.deep_view(),
        }
    }
}

impl SpecProgram {
    /// The program with no declarations, the starting point of parsing.
    pub open spec fn empty() -> SpecProgram {
        SpecProgram {
            axioms: Seq::empty(),
            operators: Seq::empty(),
            initial_state: None,
            constraints: Seq::empty(),
        }
    }
}

} // verus!
