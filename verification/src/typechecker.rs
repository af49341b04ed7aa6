//! Shallow type-consistency check over the AST.
//!
//! Two checks only, per the language's current design: every operator
//! matrix with literal data must agree with its declared shape, and a
//! declared initial state must have a non-empty dimension list. No
//! inference and no cross-reference resolution is performed.

use vstd::prelude::*;

use crate::ast::{Program, SpecOperator, SpecProgram};

verus! {

/// Performs the type-consistency pass.
pub struct TypeChecker {}

/// Type information gathered by the pass. The current checks derive
/// none, so the record is empty; it is kept as the growth point for
/// inference.
#[derive(Debug, Clone, Default, PartialEq, Eq, Structural)]
pub struct TypeInfo {}

/// A program together with the information the type checker derived.
#[derive(Debug, PartialEq)]
pub struct TypeCheckedProgram {
    pub program: Program,
    pub type_info: TypeInfo,
}

/// A fatal type error.
#[derive(Debug, Clone, PartialEq)]
pub enum TypeError {
    /// An operator's matrix shape disagrees with the length of its
    /// literal data. Carries the operator's name and both sizes.
    MatrixSizeMismatch { operator: String, rows: usize, cols: usize, data_len: usize },
    /// The declared initial state has an empty dimension list.
    MissingStateDimensions,
}

/// Mathematical counterpart of [`TypeError`].
pub enum SpecTypeError {
    MatrixSizeMismatch { operator: Seq<char>, rows: usize, cols: usize, data_len: usize },
    MissingStateDimensions,
}

impl DeepView for TypeError {
    type V = SpecTypeError;

    open spec fn deep_view(&self) -> SpecTypeError {
        match self {
            TypeError::MatrixSizeMismatch { operator, rows, cols, data_len } => {
                SpecTypeError::MatrixSizeMismatch {
                    operator: operator@,
                    rows: *rows,
                    cols: *cols,
                    data_len: *data_len,
                }
            },
            TypeError::MissingStateDimensions => SpecTypeError::MissingStateDimensions,
        }
    }
}

/// An operator is matrix-consistent when it declares no matrix, its
/// matrix has no literal data, or `rows * cols` equals the data length.
pub open spec fn sp_matrix_consistent(op: SpecOperator) -> bool {
    match op.spec.matrix_representation {
        Some(m) => match m.data {
            Some(d) => m.rows * m.cols == d.len(),
            None => true,
        },
        None => true,
    }
}

/// Index of the first operator that is not matrix-consistent.
pub open spec fn sp_first_inconsistent(ops: Seq<SpecOperator>) -> Option<int>
    decreases ops.len(),
{
    if ops.len() == 0 {
        None
    } else if !sp_matrix_consistent(ops[0]) {
        Some(0)
    } else {
        match sp_first_inconsistent(ops.drop_first()) {
            Some(k) => Some(k + 1),
            None => None,
        }
    }
}

/// The error of a failed matrix check on the given operator.
pub open spec fn sp_mismatch_error(op: SpecOperator) -> SpecTypeError {
    let m = op.spec.matrix_representation->Some_0;
    SpecTypeError::MatrixSizeMismatch {
        operator: op.name,
        rows: m.rows,
        cols: m.cols,
        data_len: m.data->Some_0.len() as usize,
    }
}

/// What type checking a program yields: the first inconsistent operator's
/// error, else a missing-dimensions error, else success.
pub open spec fn sp_typecheck(p: SpecProgram) -> Result<(), SpecTypeError> {
    match sp_first_inconsistent(p.operators) {
        Some(k) => Err(sp_mismatch_error(p.operators[k])),
        None => match p.initial_state {
            Some(st) => {
                if st.psi_0.dimensions.len() == 0 {
                    Err(SpecTypeError::MissingStateDimensions)
                } else {
                    Ok(())
                }
            },
            None => Ok(()),
        },
    }
}

/// When every operator before `k` is consistent and `k` is not, `k` is
/// the first inconsistent index.
proof fn lemma_first_inconsistent_at(ops: Seq<SpecOperator>, k: int)
    requires
        0 <= k < ops.len(),
        forall|m: int| 0 <= m < k ==> sp_matrix_consistent(#[trigger] ops[m]),
        !sp_matrix_consistent(ops[k]),
    ensures
        sp_first_inconsistent(ops) == Some(k),
    decreases ops.len(),
{
    if k > 0 {
        let rest = ops.drop_first();
        assert forall|m: int| 0 <= m < k - 1 implies sp_matrix_consistent(#[trigger] rest[m]) by {
            assert(rest[m] == ops[m + 1]);
        }
        assert(rest[k - 1] == ops[k]);
        lemma_first_inconsistent_at(rest, k - 1);
    }
}

/// When every operator is consistent, there is no first inconsistent
/// index.
proof fn lemma_first_inconsistent_none(ops: Seq<SpecOperator>)
    requires
        forall|m: int| 0 <= m < ops.len() ==> sp_matrix_consistent(#[trigger] ops[m]),
    ensures
        sp_first_inconsistent(ops) is None,
    decreases ops.len(),
{
    if ops.len() > 0 {
        let rest = ops.drop_first();
        assert forall|m: int| 0 <= m < rest.len() implies sp_matrix_consistent(
            #[trigger] rest[m],
        ) by {
            assert(rest[m] == ops[m + 1]);
        }
        lemma_first_inconsistent_none(rest);
    }
}

impl TypeChecker {
    /// A fresh checker. The pass keeps no state between programs.
    pub fn new() -> (r: Self)
        ensures
            r == (TypeChecker {  }),
    {
        TypeChecker {}
    }

    /// Checks a program and wraps it unchanged on success.
    ///
    /// Fails with the name and the two sizes of the first operator whose
    /// matrix shape disagrees with its literal data, then with a
    /// missing-dimensions error when the declared initial state has an
    /// empty dimension list; succeeds otherwise, and exactly then.
    pub fn typecheck(&mut self, program: Program) -> (r: Result<TypeCheckedProgram, TypeError>)
        ensures
            match sp_typecheck(program.deep_view()) {
                Ok(()) => r is Ok && r->Ok_0.program == program && r->Ok_0.type_info == (
                TypeInfo {  }),
                Err(e) => r is Err && r->Err_0.deep_view() == e,
            },
    {
        let ghost pv = program.deep_view();
        let mut k: usize = 0;
        while k < program.operators.len()
            invariant
                0 <= k <= program.operators.len(),
                pv == program.deep_view(),
                pv.operators.len() == program.operators.len(),
                forall|m: int| 0 <= m < k ==> sp_matrix_consistent(#[trigger] pv.operators[m]),
            decreases program.operators.len() - k,
        {
            let op = &program.operators[k];
            proof {
                assert(pv.operators[k as int] == program.operators@[k as int].deep_view());
            }
            match &op.spec.matrix_representation {
                Some(m) => {
                    match &m.data {
                        Some(d) => {
                            let rows = m.rows;
                            let cols = m.cols;
                            let len = d.len();
                            proof {
                                assert((rows as u128) * (cols as u128) <= u128::MAX) by (
                                nonlinear_arith)
                                    requires
                                        rows <= u64::MAX,
                                        cols <= u64::MAX,
                                ;
                            }
                            if (rows as u128) * (cols as u128) != (len as u128) {
                                proof {
                                    assert(!sp_matrix_consistent(pv.operators[k as int]));
                                    lemma_first_inconsistent_at(pv.operators, k as int);
                                }
                                return Err(
                                    TypeError::MatrixSizeMismatch {
                                        operator: op.name.clone(),
                                        rows,
                                        cols,
                                        data_len: len,
                                    },
                                );
                            }
                        },
                        None => {},
                    }
                },
                None => {},
            }
            proof {
                assert(sp_matrix_consistent(pv.operators[k as int]));
            }
            k = k + 1;
        }
        proof {
            lemma_first_inconsistent_none(pv.operators);
        }
        match &program.initial_state {
            Some(st) => {
                if st.psi_0.dimensions.len() == 0 {
                    return Err(TypeError::MissingStateDimensions);
                }
            },
            None => {},
        }
        Ok(TypeCheckedProgram { program, type_info: TypeInfo {} })
    }
}

} // verus!
