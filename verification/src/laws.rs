//! The laws of the engine, stated and proved once over the contracts of the
//! comparators and expression nodes.

use vstd::prelude::*;

use crate::decompose::{Expr, LeafRecordSpec};
use crate::expr::{AndExpr, CmpExpr, CustomCmpExpr, OrExpr};
use crate::ops::{Ge, Gt, Le, Lt, Ne, Single};
use crate::render::DebugRender;
use crate::traits::{Cmp, CmpDisplay, CmpError};

verus! {

/// Law: on `u64` operands, each built-in comparator decides exactly the
/// corresponding native relation, with no special cases.
pub proof fn lemma_default_tests_native_u64(l: u64, r: u64)
    ensures
        <crate::ops::Eq as Cmp<Single<u64>, Single<u64>>>::obeys_test_spec(),
        <Ne as Cmp<Single<u64>, Single<u64>>>::obeys_test_spec(),
        <Lt as Cmp<Single<u64>, Single<u64>>>::obeys_test_spec(),
        <Gt as Cmp<Single<u64>, Single<u64>>>::obeys_test_spec(),
        <Le as Cmp<Single<u64>, Single<u64>>>::obeys_test_spec(),
        <Ge as Cmp<Single<u64>, Single<u64>>>::obeys_test_spec(),
        (crate::ops::Eq).test_spec(&Single(l), &Single(r)) <==> l == r,
        (Ne).test_spec(&Single(l), &Single(r)) <==> l != r,
        (Lt).test_spec(&Single(l), &Single(r)) <==> l < r,
        (Gt).test_spec(&Single(l), &Single(r)) <==> l > r,
        (Le).test_spec(&Single(l), &Single(r)) <==> l <= r,
        (Ge).test_spec(&Single(l), &Single(r)) <==> l >= r,
{
}

/// Law: on `i64` operands, each built-in comparator decides exactly the
/// corresponding native relation.
pub proof fn lemma_default_tests_native_i64(l: i64, r: i64)
    ensures
        <crate::ops::Eq as Cmp<Single<i64>, Single<i64>>>::obeys_test_spec(),
        <Ne as Cmp<Single<i64>, Single<i64>>>::obeys_test_spec(),
        <Lt as Cmp<Single<i64>, Single<i64>>>::obeys_test_spec(),
        <Gt as Cmp<Single<i64>, Single<i64>>>::obeys_test_spec(),
        <Le as Cmp<Single<i64>, Single<i64>>>::obeys_test_spec(),
        <Ge as Cmp<Single<i64>, Single<i64>>>::obeys_test_spec(),
        (crate::ops::Eq).test_spec(&Single(l), &Single(r)) <==> l == r,
        (Ne).test_spec(&Single(l), &Single(r)) <==> l != r,
        (Lt).test_spec(&Single(l), &Single(r)) <==> l < r,
        (Gt).test_spec(&Single(l), &Single(r)) <==> l > r,
        (Le).test_spec(&Single(l), &Single(r)) <==> l <= r,
        (Ge).test_spec(&Single(l), &Single(r)) <==> l >= r,
{
}

/// Law (resolution determinism, default side): a plain comparison node is
/// decided by the tag's comparator for its operand types and by nothing
/// else.
pub proof fn lemma_default_comparator_governs<C, Lhs, Rhs>(e: &CmpExpr<C, Lhs, Rhs>) where
    C: Cmp<Lhs, Rhs>,
    C::Error: CmpDisplay<C, Lhs, Rhs>,
    Lhs: DebugRender,
    Rhs: DebugRender,

    ensures
        e.eval_spec() == e.cmp.test_spec(&e.lhs, &e.rhs),
{
}

/// Law (resolution determinism, custom side): a custom-comparator node is
/// decided by its own comparator's relation, never by the default fallback;
/// the fallback exists only for operands wrapped in
/// [`crate::ops::Single`], which a custom comparator does not take.
pub proof fn lemma_custom_comparator_governs<C, Lhs, Rhs>(e: &CustomCmpExpr<C, Lhs, Rhs>) where
    C: Cmp<Lhs, Rhs>,
    C::Error: CmpDisplay<C, Lhs, Rhs>,
    Lhs: DebugRender,
    Rhs: DebugRender,

    ensures
        e.eval_spec() == e.cmp.test_spec(&e.lhs, &e.rhs),
{
}

/// Law (short-circuit, conjunction): when the left child of a conjunction
/// fails, the whole conjunction fails and its captured records are exactly
/// the left child's — the right child contributes nothing and is never
/// evaluated.
pub proof fn lemma_and_short_circuit<Lhs: Expr, Rhs: Expr>(e: &AndExpr<Lhs, Rhs>)
    ensures
        !e.lhs.eval_spec() ==> !e.eval_spec(),
        !e.lhs.eval_spec() ==> e.records_spec() == e.lhs.records_spec(),
{
}

/// Law (short-circuit, disjunction): when the left child of a disjunction
/// holds, the whole disjunction holds and captures nothing — the right
/// child contributes nothing and is never evaluated.
pub proof fn lemma_or_short_circuit<Lhs: Expr, Rhs: Expr>(e: &OrExpr<Lhs, Rhs>)
    ensures
        e.lhs.eval_spec() ==> e.eval_spec(),
        e.lhs.eval_spec() ==> e.records_spec() == Seq::<LeafRecordSpec>::empty(),
{
}

/// Law (report of a compound expression): when the left child of a
/// conjunction holds and the right child fails, the report captures exactly
/// the failing child's leaves and nothing of the passing one.
pub proof fn lemma_and_reports_only_failing<Lhs: Expr, Rhs: Expr>(e: &AndExpr<Lhs, Rhs>)
    ensures
        e.lhs.eval_spec() && !e.rhs.eval_spec() ==> e.records_spec() == e.rhs.records_spec(),
{
}

/// Law (report order): when both children of a disjunction fail, the
/// report captures the left child's leaves and then the right child's, in
/// the order the leaves stand in the source expression.
pub proof fn lemma_or_reports_in_source_order<Lhs: Expr, Rhs: Expr>(e: &OrExpr<Lhs, Rhs>)
    ensures
        !e.lhs.eval_spec() && !e.rhs.eval_spec() ==> e.records_spec() == e.lhs.records_spec()
            + e.rhs.records_spec(),
{
}

/// Law (idempotence): evaluation takes the expression by shared reference
/// and its outcome is pinned to `eval_spec`, so any two evaluations of the
/// same obeying expression return the same result, and a passing expression
/// never yields records.
pub proof fn lemma_eval_idempotent<E: Expr>(e: &E, r1: bool, r2: bool)
    requires
        e.obeys(),
        call_ensures(E::eval, (e,), r1),
        call_ensures(E::eval, (e,), r2),
    ensures
        r1 == r2,
        e.eval_spec() ==> e.records_spec() == Seq::<LeafRecordSpec>::empty(),
{
    e.lemma_pass_no_records();
}

} // verus!

