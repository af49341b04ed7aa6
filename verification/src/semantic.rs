//! Semantic analysis: the growth point for inductive axiom expansion.
//!
//! Axiom expansion is not implemented in the current language design;
//! these types reserve its place in the pipeline, and no pass runs
//! between type checking and lowering today.

use vstd::prelude::*;

use crate::ast::{Axiom, Program};

verus! {

/// Performs semantic analysis (reserved; no analysis runs yet).
pub struct SemanticAnalyzer {}

/// A program together with its expanded axioms (reserved).
#[derive(Debug, PartialEq)]
pub struct ExpandedProgram {
    pub program: Program,
    pub expanded_axioms: Vec<Axiom>,
}

impl SemanticAnalyzer {
    /// A fresh analyzer.
    pub fn new() -> (r: Self)
        ensures
            r == (SemanticAnalyzer {  }),
    {
        SemanticAnalyzer {}
    }
}

} // verus!
