//! Decomposition of an expression tree into captured leaf records, and the
//! evaluation contract every expression node satisfies.
//!
//! Evaluation is the cheap pass: it only runs the comparators, with
//! short-circuit semantics for conjunction and disjunction. Decomposition is
//! the failure-path pass: it walks the failing path again and captures, per
//! failing leaf, the source text, the debug rendering of each operand, and
//! the diagnostic text rendered by the comparator's failure kind.

use vstd::prelude::*;

verus! {

/// Specification-level captured leaf: the fields of [`LeafRecord`] as
/// character sequences.
#[verifier::ext_equal]
pub struct LeafRecordSpec {
    pub lhs_source: Seq<char>,
    pub lhs_debug: Seq<char>,
    pub rhs_source: Seq<char>,
    pub rhs_debug: Seq<char>,
    pub rendered: Seq<char>,
}

/// One captured leaf of a failing expression: the source text and debug
/// rendering of each operand, and the diagnostic text rendered by the
/// comparator's failure kind for this leaf.
pub struct LeafRecord {
    pub lhs_source: String,
    pub lhs_debug: String,
    pub rhs_source: String,
    pub rhs_debug: String,
    pub rendered: String,
}

impl View for LeafRecord {
    type V = LeafRecordSpec;

    open spec fn view(&self) -> LeafRecordSpec {
        LeafRecordSpec {
            lhs_source: self.lhs_source@,
            lhs_debug: self.lhs_debug@,
            rhs_source: self.rhs_source@,
            rhs_debug: self.rhs_debug@,
            rendered: self.rendered@,
        }
    }
}

/// The captured records of a vector, as specification records.
pub open spec fn records_view(v: Seq<LeafRecord>) -> Seq<LeafRecordSpec> {
    v.map_values(|r: LeafRecord| r@)
}

/// A boolean expression node: a comparison leaf, or a conjunction or
/// disjunction of two sub-expressions.
pub trait Expr {
    /// Whether every comparator in this tree is pinned down by its
    /// specification, so that evaluation and decomposition are themselves
    /// pinned down.
    spec fn obeys(&self) -> bool;

    /// Whether the expression holds.
    spec fn eval_spec(&self) -> bool;

    /// The captured leaves of the path that makes the expression fail, in
    /// source order (left to right, depth first). Empty when the expression
    /// holds.
    spec fn records_spec(&self) -> Seq<LeafRecordSpec>;

    /// A passing expression decomposes to nothing: evaluating it any number
    /// of times yields no report.
    proof fn lemma_pass_no_records(&self)
        ensures
            self.eval_spec() ==> self.records_spec() == Seq::<LeafRecordSpec>::empty(),
    ;

    /// Evaluates the expression, short-circuiting conjunction and
    /// disjunction.
    fn eval(&self) -> (r: bool)
        ensures
            self.obeys() ==> r == self.eval_spec(),
    ;

    /// Walks the failing path and captures its leaves. The success path
    /// captures nothing and renders nothing.
    fn decompose(&self) -> (r: Vec<LeafRecord>)
        ensures
            self.obeys() ==> records_view(r@) == self.records_spec(),
    ;
}

} // verus!
