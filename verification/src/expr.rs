//! The expression node shapes: comparison leaves (plain or with a custom
//! comparator) and the conjunction and disjunction combinators. A tree of
//! these mirrors the source boolean expression; it is built at the call
//! site, evaluated once, and decomposed only on failure.

use vstd::prelude::*;

use crate::decompose::{records_view, Expr, LeafRecord, LeafRecordSpec};
use crate::render::DebugRender;
use crate::traits::{Cmp, CmpDisplay, CmpError};

verus! {

/// A comparison leaf dispatched through an operator tag: the default
/// comparators apply when the operands are wrapped in
/// [`crate::ops::Single`].
pub struct CmpExpr<C, Lhs, Rhs> {
    pub cmp: C,
    pub lhs: Lhs,
    pub rhs: Rhs,
    pub lhs_source: &'static str,
    pub rhs_source: &'static str,
}

/// A comparison leaf that bypasses tag dispatch and invokes the given
/// comparator's own test and display directly, on unwrapped operands.
pub struct CustomCmpExpr<C, Lhs, Rhs> {
    pub cmp: C,
    pub lhs: Lhs,
    pub rhs: Rhs,
    pub lhs_source: &'static str,
    pub rhs_source: &'static str,
}

/// Conjunction of two sub-expressions; the right child is evaluated only
/// when the left child holds.
pub struct AndExpr<Lhs, Rhs> {
    pub lhs: Lhs,
    pub rhs: Rhs,
}

/// Disjunction of two sub-expressions; the right child is evaluated only
/// when the left child fails.
pub struct OrExpr<Lhs, Rhs> {
    pub lhs: Lhs,
    pub rhs: Rhs,
}

/// The specification record a failing comparison leaf captures.
pub open spec fn leaf_record_spec<C, Lhs: DebugRender, Rhs: DebugRender, E: CmpDisplay<
    C,
    Lhs,
    Rhs,
>>(
    cmp: &C,
    lhs: &Lhs,
    rhs: &Rhs,
    lhs_source: Seq<char>,
    rhs_source: Seq<char>,
) -> LeafRecordSpec {
    LeafRecordSpec {
        lhs_source: lhs_source,
        lhs_debug: lhs.debug_spec(),
        rhs_source: rhs_source,
        rhs_debug: rhs.debug_spec(),
        rendered: E::fmt_spec(
            cmp,
            lhs,
            lhs_source,
            lhs.debug_spec(),
            rhs,
            rhs_source,
            rhs.debug_spec(),
        ),
    }
}

impl<C, Lhs, Rhs> Expr for CmpExpr<C, Lhs, Rhs> where
    C: Cmp<Lhs, Rhs>,
    C::Error: CmpDisplay<C, Lhs, Rhs>,
    Lhs: DebugRender,
    Rhs: DebugRender,
 {
    open spec fn obeys(&self) -> bool {
        C::obeys_test_spec()
    }

    open spec fn eval_spec(&self) -> bool {
        self.cmp.test_spec(&self.lhs, &self.rhs)
    }

    open spec fn records_spec(&self) -> Seq<LeafRecordSpec> {
        if self.eval_spec() {
            Seq::empty()
        } else {
            seq![
                leaf_record_spec::<C, Lhs, Rhs, C::Error>(
                    &self.cmp,
                    &self.lhs,
                    &self.rhs,
                    self.lhs_source@,
                    self.rhs_source@,
                ),
            ]
        }
    }

    proof fn lemma_pass_no_records(&self) {
    }

    fn eval(&self) -> (r: bool) {
        self.cmp.test(&self.lhs, &self.rhs).is_ok()
    }

    fn decompose(&self) -> (r: Vec<LeafRecord>) {
        match self.cmp.test(&self.lhs, &self.rhs) {
            Ok(()) => {
                let r = Vec::new();
                proof {
                    if self.obeys() {
                        assert(records_view(r@) =~= self.records_spec());
                    }
                }
                r
            },
            Err(e) => {
                let lhs_debug = self.lhs.debug_render();
                let rhs_debug = self.rhs.debug_render();
                let rendered = e.fmt(
                    &self.cmp,
                    &self.lhs,
                    self.lhs_source,
                    lhs_debug.as_str(),
                    &self.rhs,
                    self.rhs_source,
                    rhs_debug.as_str(),
                );
                let record = LeafRecord {
                    lhs_source: self.lhs_source.to_owned(),
                    lhs_debug,
                    rhs_source: self.rhs_source.to_owned(),
                    rhs_debug,
                    rendered,
                };
                let mut r = Vec::new();
                r.push(record);
                proof {
                    if self.obeys() {
                        assert(records_view(r@) =~= self.records_spec());
                    }
                }
                r
            },
        }
    }
}

impl<C, Lhs, Rhs> Expr for CustomCmpExpr<C, Lhs, Rhs> where
    C: Cmp<Lhs, Rhs>,
    C::Error: CmpDisplay<C, Lhs, Rhs>,
    Lhs: DebugRender,
    Rhs: DebugRender,
 {
    open spec fn obeys(&self) -> bool {
        C::obeys_test_spec()
    }

    open spec fn eval_spec(&self) -> bool {
        self.cmp.test_spec(&self.lhs, &self.rhs)
    }

    open spec fn records_spec(&self) -> Seq<LeafRecordSpec> {
        if self.eval_spec() {
            Seq::empty()
        } else {
            seq![
                leaf_record_spec::<C, Lhs, Rhs, C::Error>(
                    &self.cmp,
                    &self.lhs,
                    &self.rhs,
                    self.lhs_source@,
                    self.rhs_source@,
                ),
            ]
        }
    }

    proof fn lemma_pass_no_records(&self) {
    }

    fn eval(&self) -> (r: bool) {
        self.cmp.test(&self.lhs, &self.rhs).is_ok()
    }

    fn decompose(&self) -> (r: Vec<LeafRecord>) {
        match self.cmp.test(&self.lhs, &self.rhs) {
            Ok(()) => {
                let r = Vec::new();
                proof {
                    if self.obeys() {
                        assert(records_view(r@) =~= self.records_spec());
                    }
                }
                r
            },
            Err(e) => {
                let lhs_debug = self.lhs.debug_render();
                let rhs_debug = self.rhs.debug_render();
                let rendered = e.fmt(
                    &self.cmp,
                    &self.lhs,
                    self.lhs_source,
                    lhs_debug.as_str(),
                    &self.rhs,
                    self.rhs_source,
                    rhs_debug.as_str(),
                );
                let record = LeafRecord {
                    lhs_source: self.lhs_source.to_owned(),
                    lhs_debug,
                    rhs_source: self.rhs_source.to_owned(),
                    rhs_debug,
                    rendered,
                };
                let mut r = Vec::new();
                r.push(record);
                proof {
                    if self.obeys() {
                        assert(records_view(r@) =~= self.records_spec());
                    }
                }
                r
            },
        }
    }
}

impl<Lhs: Expr, Rhs: Expr> Expr for AndExpr<Lhs, Rhs> {
    open spec fn obeys(&self) -> bool {
        self.lhs.obeys() && self.rhs.obeys()
    }

    open spec fn eval_spec(&self) -> bool {
        self.lhs.eval_spec() && self.rhs.eval_spec()
    }

    open spec fn records_spec(&self) -> Seq<LeafRecordSpec> {
        if !self.lhs.eval_spec() {
            self.lhs.records_spec()
        } else if !self.rhs.eval_spec() {
            self.rhs.records_spec()
        } else {
            Seq::empty()
        }
    }

    proof fn lemma_pass_no_records(&self) {
    }

    fn eval(&self) -> (r: bool) {
        if self.lhs.eval() {
            self.rhs.eval()
        } else {
            false
        }
    }

    fn decompose(&self) -> (r: Vec<LeafRecord>) {
        if self.lhs.eval() {
            let r = self.rhs.decompose();
            proof {
                self.rhs.lemma_pass_no_records();
            }
            r
        } else {
            self.lhs.decompose()
        }
    }
}

impl<Lhs: Expr, Rhs: Expr> Expr for OrExpr<Lhs, Rhs> {
    open spec fn obeys(&self) -> bool {
        self.lhs.obeys() && self.rhs.obeys()
    }

    open spec fn eval_spec(&self) -> bool {
        self.lhs.eval_spec() || self.rhs.eval_spec()
    }

    open spec fn records_spec(&self) -> Seq<LeafRecordSpec> {
        if self.eval_spec() {
            Seq::empty()
        } else {
            self.lhs.records_spec() + self.rhs.records_spec()
        }
    }

    proof fn lemma_pass_no_records(&self) {
    }

    fn eval(&self) -> (r: bool) {
        if self.lhs.eval() {
            true
        } else {
            self.rhs.eval()
        }
    }

    fn decompose(&self) -> (r: Vec<LeafRecord>) {
        if self.lhs.eval() {
            let r = Vec::new();
            proof {
                assert(records_view(r@) =~= Seq::<LeafRecordSpec>::empty());
            }
            r
        } else if self.rhs.eval() {
            let r = Vec::new();
            proof {
                assert(records_view(r@) =~= Seq::<LeafRecordSpec>::empty());
            }
            r
        } else {
            let mut r = self.lhs.decompose();
            let mut right = self.rhs.decompose();
            r.append(&mut right);
            proof {
                if self.obeys() {
                    assert(records_view(r@) =~= self.lhs.records_spec()
                        + self.rhs.records_spec());
                }
            }
            r
        }
    }
}

} // verus!
