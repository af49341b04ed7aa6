//! Intermediate representation and the AST-to-IR lowering.
//!
//! The IR mirrors the AST but resolves each operator's up-to-three
//! backend descriptions to exactly one implementation, by a fixed
//! priority: a matrix with literal data wins over a tensor network,
//! which wins over a GPU kernel; with none of the three, an empty dense
//! matrix is emitted. The whole program lands in one module named
//! `main`, the designated entry point.

use vstd::prelude::*;

use crate::ast::{Numeral, Operator, OperatorType, Program, SpecOperator, SpecProgram};
use vstd::string::StringExecFns;

verus! {

/// The root of the IR: a module list and the entry-point name.
#[derive(Debug, PartialEq)]
pub struct IrProgram {
    pub modules: Vec<IrModule>,
    pub entry_point: String,
}

/// One IR module: named, with function and operator lists. The current
/// front end emits no functions.
#[derive(Debug, PartialEq)]
pub struct IrModule {
    pub name: String,
    pub functions: Vec<IrFunction>,
    pub operators: Vec<IrOperator>,
}

/// An IR function (reserved; the front end does not emit these yet).
#[derive(Debug, PartialEq)]
pub struct IrFunction {
    pub name: String,
    pub parameters: Vec<IrParameter>,
    pub body: IrBlock,
    pub return_type: IrType,
}

/// A block of IR statements.
#[derive(Debug, PartialEq)]
pub struct IrBlock {
    pub statements: Vec<IrStatement>,
}

/// An IR statement (reserved; the front end does not emit these yet).
#[derive(Debug, PartialEq)]
pub enum IrStatement {
    Assign { var: String, value: IrExpression },
    Call { function: String, args: Vec<IrExpression> },
    Return { value: Option<IrExpression> },
    If { condition: IrExpression, then_block: IrBlock, else_block: Option<IrBlock> },
    Loop { body: IrBlock },
}

/// An IR expression (reserved; the front end does not emit these yet).
#[derive(Debug, PartialEq)]
pub enum IrExpression {
    Variable(String),
    Constant(IrConstant),
    BinaryOp { op: IrBinaryOp, left: Box<IrExpression>, right: Box<IrExpression> },
    UnaryOp { op: IrUnaryOp, expr: Box<IrExpression> },
    Call { function: String, args: Vec<IrExpression> },
    TensorOp { op: TensorOperation, operands: Vec<IrExpression> },
}

/// An IR constant. Non-integer values keep their source text, as in the
/// AST.
#[derive(Debug, Clone, PartialEq)]
pub enum IrConstant {
    Int(i64),
    Float(Numeral),
    Complex { re: Numeral, im: Numeral },
    Bool(bool),
}

/// Binary operators of the IR expression language.
#[derive(Debug, Clone, Copy, PartialEq, Eq, Structural)]
pub enum IrBinaryOp {
    Add,
    Sub,
    Mul,
    Div,
    Pow,
    Dot,
    Cross,
    TensorProduct,
    Contract,
}

/// Unary operators of the IR expression language.
#[derive(Debug, Clone, Copy, PartialEq, Eq, Structural)]
pub enum IrUnaryOp {
    Neg,
    Transpose,
    Conjugate,
    Trace,
    SVD,
}

/// Named tensor operations of the IR expression language.
#[derive(Debug, Clone, Copy, PartialEq, Eq, Structural)]
pub enum TensorOperation {
    MPSContract,
    PEPSContract,
    SVDTruncate,
    QRDecompose,
    Renormalize,
}

/// An IR operator: the lowered form of an AST operator.
#[derive(Debug, PartialEq)]
pub struct IrOperator {
    pub name: String,
    pub operator_type: IrOperatorType,
    pub spec: IrOperatorSpec,
}

/// Kind of an IR operator; corresponds one-to-one to the AST kinds.
#[derive(Debug, Clone, Copy, PartialEq, Eq, Structural)]
pub enum IrOperatorType {
    Hamiltonian,
    Dissipative,
    TopologicalMutation,
    EntropyFlow,
}

/// The resolved backend of an IR operator, with its execution target.
#[derive(Debug, PartialEq)]
pub struct IrOperatorSpec {
    pub target: IrTarget,
    pub implementation: IrOperatorImplementation,
}

/// Execution target of an operator. Lowering currently always selects
/// the CPU; target selection from execution hints is future work.
#[derive(Debug, Clone, Copy, PartialEq, Eq, Structural)]
pub enum IrTarget {
    CPU,
    GPU,
    MultiGPU,
}

/// Exactly one backend implementation per operator.
#[derive(Debug, PartialEq)]
pub enum IrOperatorImplementation {
    DenseMatrix { data: Vec<Numeral> },
    SparseMatrix { indices: Vec<(usize, usize)>, values: Vec<Numeral> },
    TensorNetwork { network: TensorNetworkSpec },
    CUDAKernel { kernel_name: String },
}

/// The tensor-network form carried by the IR: a network kind name and
/// the bond topology. Tensor shapes are not carried over; only the bond
/// chain is.
#[derive(Debug, PartialEq)]
pub struct TensorNetworkSpec {
    pub network_type: String,
    pub tensors: Vec<TensorSpec>,
    pub bonds: Vec<BondSpec>,
}

/// One tensor of an IR tensor network (reserved; lowering emits none).
#[derive(Debug, PartialEq)]
pub struct TensorSpec {
    pub name: String,
    pub shape: Vec<usize>,
    pub data: Option<Vec<Numeral>>,
}

/// One bond of an IR tensor network: two tensor/index endpoints and the
/// bond dimension.
#[derive(Debug, Clone, PartialEq)]
pub struct BondSpec {
    pub tensor1: String,
    pub index1: usize,
    pub tensor2: String,
    pub index2: usize,
    pub dimension: usize,
}

/// The type of an IR value.
#[derive(Debug, PartialEq)]
pub enum IrType {
    Int,
    Float,
    Complex,
    Bool,
    Tensor { shape: Vec<usize> },
    Operator { spec: IrOperatorSpec },
    State,
}

/// A parameter of an IR function.
#[derive(Debug, PartialEq)]
pub struct IrParameter {
    pub name: String,
    pub param_type: IrType,
}

// Mathematical counterparts of the IR values that lowering produces.
pub struct SpecBondSpec {
    pub tensor1: Seq<char>,
    pub index1: usize,
    pub tensor2: Seq<char>,
    pub index2: usize,
    pub dimension: usize,
}

pub struct SpecTensorNetworkSpec {
    pub network_type: Seq<char>,
    pub tensors: Seq<TensorSpec>,
    pub bonds: Seq<SpecBondSpec>,
}

pub enum SpecIrImplementation {
    DenseMatrix { data: Seq<Seq<char>> },
    SparseMatrix { indices: Seq<(usize, usize)>, values: Seq<Seq<char>> },
    TensorNetwork { network: SpecTensorNetworkSpec },
    CUDAKernel { kernel_name: Seq<char> },
}

pub struct SpecIrOperatorSpec {
    pub target: IrTarget,
    pub implementation: SpecIrImplementation,
}

pub struct SpecIrOperator {
    pub name: Seq<char>,
    pub operator_type: IrOperatorType,
    pub spec: SpecIrOperatorSpec,
}

pub struct SpecIrModule {
    pub name: Seq<char>,
    pub functions: Seq<IrFunction>,
    pub operators: Seq<SpecIrOperator>,
}

pub struct SpecIrProgram {
    pub modules: Seq<SpecIrModule>,
    pub entry_point: Seq<char>,
}

impl DeepView for BondSpec {
    type V = SpecBondSpec;

    open spec fn deep_view(&self) -> SpecBondSpec {
        SpecBondSpec {
            tensor1: self.tensor1@,
            index1: self.index1,
            tensor2: self.tensor2@,
            index2: self.index2,
            dimension: self.dimension,
        }
    }
}

impl DeepView for TensorNetworkSpec {
    type V = SpecTensorNetworkSpec;

    open spec fn deep_view(&self) -> SpecTensorNetworkSpec {
        SpecTensorNetworkSpec {
            network_type: self.network_type@,
            tensors: self.tensors@,
            bonds: self.bonds.deep_view(),
        }
    }
}

impl DeepView for IrOperatorImplementation {
    type V = SpecIrImplementation;

    open spec fn deep_view(&self) -> SpecIrImplementation {
        match self {
            IrOperatorImplementation::DenseMatrix { data } => SpecIrImplementation::DenseMatrix {
                data: data.deep_view(),
            },
            IrOperatorImplementation::SparseMatrix { indices, values } => {
                SpecIrImplementation::SparseMatrix {
                    indices: indices@,
                    values: values.deep_view(),
                }
            },
            IrOperatorImplementation::TensorNetwork { network } => {
                SpecIrImplementation::TensorNetwork { network: network.deep_view() }
            },
            IrOperatorImplementation::CUDAKernel { kernel_name } => {
                SpecIrImplementation::CUDAKernel { kernel_name: kernel_name@ }
            },
        }
    }
}

impl DeepView for IrOperatorSpec {
    type V = SpecIrOperatorSpec;

    open spec fn deep_view(&self) -> SpecIrOperatorSpec {
        SpecIrOperatorSpec {
            target: self.target,
            implementation: self.implementation.deep_view(),
        }
    }
}

impl DeepView for IrOperator {
    type V = SpecIrOperator;

    open spec fn deep_view(&self) -> SpecIrOperator {
        SpecIrOperator {
            name: self.name@,
            operator_type: self.operator_type,
            spec: self.spec.deep_view(),
        }
    }
}

impl DeepView for IrModule {
    type V = SpecIrModule;

    open spec fn deep_view(&self) -> SpecIrModule {
        SpecIrModule {
            name: self.name@,
            functions: self.functions@,
            operators: self.operators.deep_view(),
        }
    }
}

impl DeepView for IrProgram {
    type V = SpecIrProgram;

    open spec fn deep_view(&self) -> SpecIrProgram {
        SpecIrProgram { modules: self.modules.deep_view(), entry_point: self.entry_point@ }
    }
}

/// The IR kind of an AST operator kind: a direct name correspondence.
pub open spec fn sp_lower_type(ot: OperatorType) -> IrOperatorType {
    match ot {
        OperatorType::Hamiltonian => IrOperatorType::Hamiltonian,
        OperatorType::Dissipative => IrOperatorType::Dissipative,
        OperatorType::TopologicalMutation => IrOperatorType::TopologicalMutation,
        OperatorType::EntropyFlow => IrOperatorType::EntropyFlow,
    }
}

/// The display name of a tensor-network kind.
pub open spec fn sp_net_name(k: crate::ast::TensorNetworkType) -> Seq<char> {
    match k {
        crate::ast::TensorNetworkType::MPS => "MPS"@,
        crate::ast::TensorNetworkType::PEPS => "PEPS"@,
        crate::ast::TensorNetworkType::MERA => "MERA"@,
    }
}

/// The synthetic bond chain of a declared bond-dimension list: bond `i`
/// connects index `i` to index `i + 1` of the placeholder tensor name
/// `t`, with the declared dimension.
pub open spec fn sp_bond_chain(dims: Seq<usize>) -> Seq<SpecBondSpec> {
    Seq::new(
        dims.len(),
        |i: int|
            SpecBondSpec {
                tensor1: "t"@,
                index1: i as usize,
                tensor2: "t"@,
                index2: (i + 1) as usize,
                dimension: dims[i],
            },
    )
}

/// The single implementation an operator lowers to, chosen by fixed
/// priority: a declared matrix (with its literal data, or empty when the
/// declaration carried none) wins over a tensor network, which wins over
/// a GPU kernel; an operator with no backend description lowers to an
/// empty dense matrix. The declared sparsity flag does not influence the
/// choice: it is recorded in the AST but does not yet drive backend
/// selection, so dense is emitted whenever a matrix is declared.
pub open spec fn sp_lower_implementation(op: SpecOperator) -> SpecIrImplementation {
    match op.spec.matrix_representation {
        Some(m) => SpecIrImplementation::DenseMatrix {
            data: match m.data {
                Some(d) => d,
                None => Seq::empty(),
            },
        },
        None => match op.spec.tensor_network {
            Some(tn) => SpecIrImplementation::TensorNetwork {
                network: SpecTensorNetworkSpec {
                    network_type: sp_net_name(tn.network_type),
                    tensors: Seq::empty(),
                    bonds: sp_bond_chain(tn.bond_dimensions),
                },
            },
            None => match op.spec.gpu_kernel {
                Some(k) => SpecIrImplementation::CUDAKernel { kernel_name: k },
                None => SpecIrImplementation::DenseMatrix { data: Seq::empty() },
            },
        },
    }
}

/// The lowered form of one operator: same name, corresponding kind, CPU
/// target, and the implementation chosen by [`sp_lower_implementation`].
pub open spec fn sp_lower_operator(op: SpecOperator) -> SpecIrOperator {
    SpecIrOperator {
        name: op.name,
        operator_type: sp_lower_type(op.operator_type),
        spec: SpecIrOperatorSpec {
            target: IrTarget::CPU,
            implementation: sp_lower_implementation(op),
        },
    }
}

/// The lowered form of a whole program: one module named `main`, whose
/// operator list mirrors the source operator list one-to-one, and `main`
/// as the entry point. Lowering is total: it never fails.
pub open spec fn sp_lower(p: SpecProgram) -> SpecIrProgram {
    SpecIrProgram {
        modules: seq![
            SpecIrModule {
                name: "main"@,
                functions: Seq::empty(),
                operators: Seq::new(p.operators.len(), |i: int| sp_lower_operator(p.operators[i])),
            },
        ],
        entry_point: "main"@,
    }
}

/// Law: resolution follows the fixed fallback priority. An operator that
/// declares a matrix always lowers to a dense matrix, whatever else it
/// declares; a tensor network is chosen only without a matrix; a GPU
/// kernel only without both; and with no description at all, the empty
/// dense matrix is emitted.
pub proof fn lemma_fallback_priority(op: SpecOperator)
    ensures
        op.spec.matrix_representation is Some ==> sp_lower_implementation(op) is DenseMatrix,
        op.spec.matrix_representation is None && op.spec.tensor_network is Some
            ==> sp_lower_implementation(op) is TensorNetwork,
        op.spec.matrix_representation is None && op.spec.tensor_network is None
            && op.spec.gpu_kernel is Some ==> sp_lower_implementation(op) is CUDAKernel,
        op.spec.matrix_representation is None && op.spec.tensor_network is None
            && op.spec.gpu_kernel is None ==> sp_lower_implementation(op)
            == (SpecIrImplementation::DenseMatrix { data: Seq::<Seq<char>>::empty() }),
{
}

/// Copies a numeral list.
fn copy_numerals(d: &Vec<Numeral>) -> (r: Vec<Numeral>)
    ensures
        r.deep_view() == d.deep_view(),
{
    let mut out: Vec<Numeral> = Vec::new();
    let mut k: usize = 0;
    while k < d.len()
        invariant
            0 <= k <= d@.len(),
            out.deep_view() =~= d.deep_view().subrange(0, k as int),
        decreases d@.len() - k,
    {
        let ghost out0 = out;
        let n = Numeral { text: d[k].text.clone() };
        out.push(n);
        proof {
            crate::parser::lemma_deep_view_push(out0, out, n);
            assert(n.deep_view() == d.deep_view()[k as int]);
            assert(out.deep_view() =~= d.deep_view().subrange(0, k + 1 as int));
        }
        k = k + 1;
    }
    proof {
        assert(d.deep_view().subrange(0, d@.len() as int) =~= d.deep_view());
    }
    out
}

/// Lowers one operator, resolving its backend by the fixed priority.
fn lower_operator(op: &Operator) -> (r: IrOperator)
    ensures
        r.deep_view() == sp_lower_operator(op.deep_view()),
{
    let operator_type = match op.operator_type {
        OperatorType::Hamiltonian => IrOperatorType::Hamiltonian,
        OperatorType::Dissipative => IrOperatorType::Dissipative,
        OperatorType::TopologicalMutation => IrOperatorType::TopologicalMutation,
        OperatorType::EntropyFlow => IrOperatorType::EntropyFlow,
    };
    let implementation = match &op.spec.matrix_representation {
        Some(m) => {
            let data = match &m.data {
                Some(d) => copy_numerals(d),
                None => Vec::new(),
            };
            proof {
                if op.spec.matrix_representation->Some_0.data is None {
                    assert(data.deep_view() =~= Seq::<Seq<char>>::empty());
                }
            }
            IrOperatorImplementation::DenseMatrix { data }
        },
        None => match &op.spec.tensor_network {
            Some(tn) => {
                let mut bonds: Vec<BondSpec> = Vec::new();
                let dims = &tn.bond_dimensions;
                let mut k: usize = 0;
                while k < dims.len()
                    invariant
                        0 <= k <= dims@.len(),
                        bonds.deep_view() =~= sp_bond_chain(dims@).subrange(0, k as int),
                    decreases dims@.len() - k,
                {
                    let ghost bonds0 = bonds;
                    let b = BondSpec {
                        tensor1: String::from_str("t"),
                        index1: k,
                        tensor2: String::from_str("t"),
                        index2: k + 1,
                        dimension: dims[k],
                    };
                    bonds.push(b);
                    proof {
                        crate::parser::lemma_deep_view_push(bonds0, bonds, b);
                        assert(b.deep_view() == sp_bond_chain(dims@)[k as int]);
                        assert(bonds.deep_view() =~= sp_bond_chain(dims@).subrange(
                            0,
                            k + 1 as int,
                        ));
                    }
                    k = k + 1;
                }
                proof {
                    assert(sp_bond_chain(dims@).subrange(0, dims@.len() as int) =~= sp_bond_chain(
                        dims@,
                    ));
                }
                let network_type = match tn.network_type {
                    crate::ast::TensorNetworkType::MPS => String::from_str("MPS"),
                    crate::ast::TensorNetworkType::PEPS => String::from_str("PEPS"),
                    crate::ast::TensorNetworkType::MERA => String::from_str("MERA"),
                };
                IrOperatorImplementation::TensorNetwork {
                    network: TensorNetworkSpec { network_type, tensors: Vec::new(), bonds },
                }
            },
            None => match &op.spec.gpu_kernel {
                Some(k) => IrOperatorImplementation::CUDAKernel { kernel_name: k.clone() },
                None => {
                    let data: Vec<Numeral> = Vec::new();
                    proof {
                        assert(data.deep_view() =~= Seq::<Seq<char>>::empty());
                    }
                    IrOperatorImplementation::DenseMatrix { data }
                },
            },
        },
    };
    IrOperator {
        name: op.name.clone(),
        operator_type,
        spec: IrOperatorSpec { target: IrTarget::CPU, implementation },
    }
}

/// Lowers a type-checked program to its IR: one module named `main`
/// whose operators mirror the source operators one-to-one. Lowering is
/// total and re-runs no validation.
pub fn ast_to_ir(program: &Program) -> (r: IrProgram)
    ensures
        r.deep_view() == sp_lower(program.deep_view()),
{
    let ghost pv = program.deep_view();
    let mut operators: Vec<IrOperator> = Vec::new();
    let mut k: usize = 0;
    while k < program.operators.len()
        invariant
            0 <= k <= program.operators.len(),
            pv == program.deep_view(),
            pv.operators.len() == program.operators.len(),
            operators.deep_view() =~= Seq::new(
                k as nat,
                |i: int| sp_lower_operator(pv.operators[i]),
            ),
        decreases program.operators.len() - k,
    {
        let ghost ops0 = operators;
        let lowered = lower_operator(&program.operators[k]);
        operators.push(lowered);
        proof {
            assert(program.operators@[k as int].deep_view() == pv.operators[k as int]);
            crate::parser::lemma_deep_view_push(ops0, operators, lowered);
            assert(operators.deep_view() =~= Seq::new(
                (k + 1) as nat,
                |i: int| sp_lower_operator(pv.operators[i]),
            ));
        }
        k = k + 1;
    }
    let module = IrModule { name: String::from_str("main"), functions: Vec::new(), operators };
    let mut modules: Vec<IrModule> = Vec::new();
    let ghost mv = module.deep_view();
    modules.push(module);
    proof {
        assert(modules.deep_view() =~= seq![mv]);
        assert(mv.functions =~= Seq::<IrFunction>::empty());
        assert(mv.operators =~= sp_lower(pv).modules[0].operators);
        assert(mv == sp_lower(pv).modules[0]);
        assert(modules.deep_view() =~= sp_lower(pv).modules);
    }
    IrProgram { modules, entry_point: String::from_str("main") }
}

} // verus!
