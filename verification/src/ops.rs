//! The six relational operator tags, their failure kinds, and the default
//! comparator implementations over wrapped operands.
//!
//! The default implementations exist only for operands wrapped in [`Single`]:
//! a custom comparator takes its operands unwrapped, so the two
//! implementation sets are disjoint by construction and the call site can
//! prefer a custom comparator whenever the operand type supplies one.

use vstd::prelude::*;

use crate::report::{cmp_template, display_cmp_impl};
use crate::traits::{Cmp, CmpDisplay, CmpError};
use core::cmp::Ordering;
use vstd::std_specs::cmp::{PartialEqSpec, PartialOrdSpec};

verus! {

/// Operator tag for `==`.
#[derive(Copy, Clone, Debug)]
pub struct Eq;

/// Operator tag for `!=`.
#[derive(Copy, Clone, Debug)]
pub struct Ne;

/// Operator tag for `<=`.
#[derive(Copy, Clone, Debug)]
pub struct Le;

/// Operator tag for `>=`.
#[derive(Copy, Clone, Debug)]
pub struct Ge;

/// Operator tag for `<`.
#[derive(Copy, Clone, Debug)]
pub struct Lt;

/// Operator tag for `>`.
#[derive(Copy, Clone, Debug)]
pub struct Gt;

/// Transparent wrapper that selects the default (built-in
/// equality/ordering) comparator implementations. It holds no state of its
/// own: it exists only to keep the default implementations apart from any
/// custom comparator a type may supply.
#[derive(Copy, Clone, Debug)]
pub struct Single<T>(pub T);

impl<T: crate::render::DebugRender> crate::render::DebugRender for Single<T> {
    open spec fn debug_spec(&self) -> Seq<char> {
        self.0.debug_spec()
    }

    fn debug_render(&self) -> (r: String) {
        self.0.debug_render()
    }
}

/// Failure kind of the default `==` comparator. Carries no payload.
#[derive(Copy, Clone, Debug)]
pub struct EqError;

/// Failure kind of the default `!=` comparator. Carries no payload.
#[derive(Copy, Clone, Debug)]
pub struct NeError;

/// Failure kind of the default `<=` comparator. Carries no payload.
#[derive(Copy, Clone, Debug)]
pub struct LeError;

/// Failure kind of the default `>=` comparator. Carries no payload.
#[derive(Copy, Clone, Debug)]
pub struct GeError;

/// Failure kind of the default `<` comparator. Carries no payload.
#[derive(Copy, Clone, Debug)]
pub struct LtError;

/// Failure kind of the default `>` comparator. Carries no payload.
#[derive(Copy, Clone, Debug)]
pub struct GtError;

impl<Lhs: PartialEq<Rhs>, Rhs> CmpError<Eq, Single<Lhs>, Single<Rhs>> for Eq {
    type Error = EqError;
}

impl<Lhs: PartialEq<Rhs>, Rhs> Cmp<Single<Lhs>, Single<Rhs>> for Eq {
    open spec fn obeys_test_spec() -> bool {
        <Lhs as PartialEqSpec<Rhs>>::obeys_eq_spec()
    }

    open spec fn test_spec(&self, lhs: &Single<Lhs>, rhs: &Single<Rhs>) -> bool {
        lhs.0.eq_spec(&rhs.0)
    }

    fn test(&self, lhs: &Single<Lhs>, rhs: &Single<Rhs>) -> (r: Result<(), EqError>) {
        if lhs.0 == rhs.0 {
            Ok(())
        } else {
            Err(EqError)
        }
    }
}

impl<Lhs: PartialEq<Rhs>, Rhs> CmpError<Ne, Single<Lhs>, Single<Rhs>> for Ne {
    type Error = NeError;
}

impl<Lhs: PartialEq<Rhs>, Rhs> Cmp<Single<Lhs>, Single<Rhs>> for Ne {
    open spec fn obeys_test_spec() -> bool {
        <Lhs as PartialEqSpec<Rhs>>::obeys_eq_spec()
    }

    open spec fn test_spec(&self, lhs: &Single<Lhs>, rhs: &Single<Rhs>) -> bool {
        !lhs.0.eq_spec(&rhs.0)
    }

    fn test(&self, lhs: &Single<Lhs>, rhs: &Single<Rhs>) -> (r: Result<(), NeError>) {
        if lhs.0 != rhs.0 {
            Ok(())
        } else {
            Err(NeError)
        }
    }
}

impl<Lhs: PartialOrd<Rhs>, Rhs> CmpError<Le, Single<Lhs>, Single<Rhs>> for Le {
    type Error = LeError;
}

impl<Lhs: PartialOrd<Rhs>, Rhs> Cmp<Single<Lhs>, Single<Rhs>> for Le {
    open spec fn obeys_test_spec() -> bool {
        <Lhs as PartialOrdSpec<Rhs>>::obeys_partial_cmp_spec()
    }

    open spec fn test_spec(&self, lhs: &Single<Lhs>, rhs: &Single<Rhs>) -> bool {
        lhs.0.partial_cmp_spec(&rhs.0) matches Some(Ordering::Less | Ordering::Equal)
    }

    fn test(&self, lhs: &Single<Lhs>, rhs: &Single<Rhs>) -> (r: Result<(), LeError>) {
        if lhs.0 <= rhs.0 {
            Ok(())
        } else {
            Err(LeError)
        }
    }
}

impl<Lhs: PartialOrd<Rhs>, Rhs> CmpError<Ge, Single<Lhs>, Single<Rhs>> for Ge {
    type Error = GeError;
}

impl<Lhs: PartialOrd<Rhs>, Rhs> Cmp<Single<Lhs>, Single<Rhs>> for Ge {
    open spec fn obeys_test_spec() -> bool {
        <Lhs as PartialOrdSpec<Rhs>>::obeys_partial_cmp_spec()
    }

    open spec fn test_spec(&self, lhs: &Single<Lhs>, rhs: &Single<Rhs>) -> bool {
        lhs.0.partial_cmp_spec(&rhs.0) matches Some(Ordering::Greater | Ordering::Equal)
    }

    fn test(&self, lhs: &Single<Lhs>, rhs: &Single<Rhs>) -> (r: Result<(), GeError>) {
        if lhs.0 >= rhs.0 {
            Ok(())
        } else {
            Err(GeError)
        }
    }
}

impl<Lhs: PartialOrd<Rhs>, Rhs> CmpError<Lt, Single<Lhs>, Single<Rhs>> for Lt {
    type Error = LtError;
}

impl<Lhs: PartialOrd<Rhs>, Rhs> Cmp<Single<Lhs>, Single<Rhs>> for Lt {
    open spec fn obeys_test_spec() -> bool {
        <Lhs as PartialOrdSpec<Rhs>>::obeys_partial_cmp_spec()
    }

    open spec fn test_spec(&self, lhs: &Single<Lhs>, rhs: &Single<Rhs>) -> bool {
        lhs.0.partial_cmp_spec(&rhs.0) == Some(Ordering::Less)
    }

    fn test(&self, lhs: &Single<Lhs>, rhs: &Single<Rhs>) -> (r: Result<(), LtError>) {
        if lhs.0 < rhs.0 {
            Ok(())
        } else {
            Err(LtError)
        }
    }
}

impl<Lhs: PartialOrd<Rhs>, Rhs> CmpError<Gt, Single<Lhs>, Single<Rhs>> for Gt {
    type Error = GtError;
}

impl<Lhs: PartialOrd<Rhs>, Rhs> Cmp<Single<Lhs>, Single<Rhs>> for Gt {
    open spec fn obeys_test_spec() -> bool {
        <Lhs as PartialOrdSpec<Rhs>>::obeys_partial_cmp_spec()
    }

    open spec fn test_spec(&self, lhs: &Single<Lhs>, rhs: &Single<Rhs>) -> bool {
        lhs.0.partial_cmp_spec(&rhs.0) == Some(Ordering::Greater)
    }

    fn test(&self, lhs: &Single<Lhs>, rhs: &Single<Rhs>) -> (r: Result<(), GtError>) {
        if lhs.0 > rhs.0 {
            Ok(())
        } else {
            Err(GtError)
        }
    }
}

impl<Lhs, Rhs> CmpDisplay<Eq, Single<Lhs>, Single<Rhs>> for EqError {
    open spec fn fmt_spec(
        cmp: &Eq,
        lhs: &Single<Lhs>,
        lhs_source: Seq<char>,
        lhs_debug: Seq<char>,
        rhs: &Single<Rhs>,
        rhs_source: Seq<char>,
        rhs_debug: Seq<char>,
    ) -> Seq<char> {
        cmp_template("=="@, lhs_source, lhs_debug, rhs_source, rhs_debug)
    }

    fn fmt(
        &self,
        cmp: &Eq,
        lhs: &Single<Lhs>,
        lhs_source: &str,
        lhs_debug: &str,
        rhs: &Single<Rhs>,
        rhs_source: &str,
        rhs_debug: &str,
    ) -> (r: String) {
        display_cmp_impl("==", lhs_debug, lhs_source, rhs_debug, rhs_source)
    }
}

impl<Lhs, Rhs> CmpDisplay<Ne, Single<Lhs>, Single<Rhs>> for NeError {
    open spec fn fmt_spec(
        cmp: &Ne,
        lhs: &Single<Lhs>,
        lhs_source: Seq<char>,
        lhs_debug: Seq<char>,
        rhs: &Single<Rhs>,
        rhs_source: Seq<char>,
        rhs_debug: Seq<char>,
    ) -> Seq<char> {
        cmp_template("!="@, lhs_source, lhs_debug, rhs_source, rhs_debug)
    }

    fn fmt(
        &self,
        cmp: &Ne,
        lhs: &Single<Lhs>,
        lhs_source: &str,
        lhs_debug: &str,
        rhs: &Single<Rhs>,
        rhs_source: &str,
        rhs_debug: &str,
    ) -> (r: String) {
        display_cmp_impl("!=", lhs_debug, lhs_source, rhs_debug, rhs_source)
    }
}

impl<Lhs, Rhs> CmpDisplay<Lt, Single<Lhs>, Single<Rhs>> for LtError {
    open spec fn fmt_spec(
        cmp: &Lt,
        lhs: &Single<Lhs>,
        lhs_source: Seq<char>,
        lhs_debug: Seq<char>,
        rhs: &Single<Rhs>,
        rhs_source: Seq<char>,
        rhs_debug: Seq<char>,
    ) -> Seq<char> {
        cmp_template("<"@, lhs_source, lhs_debug, rhs_source, rhs_debug)
    }

    fn fmt(
        &self,
        cmp: &Lt,
        lhs: &Single<Lhs>,
        lhs_source: &str,
        lhs_debug: &str,
        rhs: &Single<Rhs>,
        rhs_source: &str,
        rhs_debug: &str,
    ) -> (r: String) {
        display_cmp_impl("<", lhs_debug, lhs_source, rhs_debug, rhs_source)
    }
}

impl<Lhs, Rhs> CmpDisplay<Gt, Single<Lhs>, Single<Rhs>> for GtError {
    open spec fn fmt_spec(
        cmp: &Gt,
        lhs: &Single<Lhs>,
        lhs_source: Seq<char>,
        lhs_debug: Seq<char>,
        rhs: &Single<Rhs>,
        rhs_source: Seq<char>,
        rhs_debug: Seq<char>,
    ) -> Seq<char> {
        cmp_template(">"@, lhs_source, lhs_debug, rhs_source, rhs_debug)
    }

    fn fmt(
        &self,
        cmp: &Gt,
        lhs: &Single<Lhs>,
        lhs_source: &str,
        lhs_debug: &str,
        rhs: &Single<Rhs>,
        rhs_source: &str,
        rhs_debug: &str,
    ) -> (r: String) {
        display_cmp_impl(">", lhs_debug, lhs_source, rhs_debug, rhs_source)
    }
}

impl<Lhs, Rhs> CmpDisplay<Le, Single<Lhs>, Single<Rhs>> for LeError {
    open spec fn fmt_spec(
        cmp: &Le,
        lhs: &Single<Lhs>,
        lhs_source: Seq<char>,
        lhs_debug: Seq<char>,
        rhs: &Single<Rhs>,
        rhs_source: Seq<char>,
        rhs_debug: Seq<char>,
    ) -> Seq<char> {
        cmp_template("<="@, lhs_source, lhs_debug, rhs_source, rhs_debug)
    }

    fn fmt(
        &self,
        cmp: &Le,
        lhs: &Single<Lhs>,
        lhs_source: &str,
        lhs_debug: &str,
        rhs: &Single<Rhs>,
        rhs_source: &str,
        rhs_debug: &str,
    ) -> (r: String) {
        display_cmp_impl("<=", lhs_debug, lhs_source, rhs_debug, rhs_source)
    }
}

impl<Lhs, Rhs> CmpDisplay<Ge, Single<Lhs>, Single<Rhs>> for GeError {
    open spec fn fmt_spec(
        cmp: &Ge,
        lhs: &Single<Lhs>,
        lhs_source: Seq<char>,
        lhs_debug: Seq<char>,
        rhs: &Single<Rhs>,
        rhs_source: Seq<char>,
        rhs_debug: Seq<char>,
    ) -> Seq<char> {
        cmp_template(">="@, lhs_source, lhs_debug, rhs_source, rhs_debug)
    }

    fn fmt(
        &self,
        cmp: &Ge,
        lhs: &Single<Lhs>,
        lhs_source: &str,
        lhs_debug: &str,
        rhs: &Single<Rhs>,
        rhs_source: &str,
        rhs_debug: &str,
    ) -> (r: String) {
        display_cmp_impl(">=", lhs_debug, lhs_source, rhs_debug, rhs_source)
    }
}

/// A custom comparator: succeeds when the operands differ by at most
/// `tolerance`. It takes its operands unwrapped, so it is selected through
/// [`crate::expr::CustomCmpExpr`] and never through the default fallback.
#[derive(Copy, Clone, Debug)]
pub struct AbsDiff {
    pub tolerance: u64,
}

/// Failure kind of [`AbsDiff`]. Carries no payload.
#[derive(Copy, Clone, Debug)]
pub struct AbsDiffError;

impl CmpError<AbsDiff, u64, u64> for AbsDiff {
    type Error = AbsDiffError;
}

impl Cmp<u64, u64> for AbsDiff {
    open spec fn obeys_test_spec() -> bool {
        true
    }

    open spec fn test_spec(&self, lhs: &u64, rhs: &u64) -> bool {
        (if *lhs >= *rhs {
            *lhs - *rhs
        } else {
            *rhs - *lhs
        }) <= self.tolerance
    }

    fn test(&self, lhs: &u64, rhs: &u64) -> (r: Result<(), AbsDiffError>) {
        let distance = if *lhs >= *rhs {
            *lhs - *rhs
        } else {
            *rhs - *lhs
        };
        if distance <= self.tolerance {
            Ok(())
        } else {
            Err(AbsDiffError)
        }
    }
}

impl CmpDisplay<AbsDiff, u64, u64> for AbsDiffError {
    open spec fn fmt_spec(
        cmp: &AbsDiff,
        lhs: &u64,
        lhs_source: Seq<char>,
        lhs_debug: Seq<char>,
        rhs: &u64,
        rhs_source: Seq<char>,
        rhs_debug: Seq<char>,
    ) -> Seq<char> {
        cmp_template("~"@, lhs_source, lhs_debug, rhs_source, rhs_debug)
    }

    fn fmt(
        &self,
        cmp: &AbsDiff,
        lhs: &u64,
        lhs_source: &str,
        lhs_debug: &str,
        rhs: &u64,
        rhs_source: &str,
        rhs_debug: &str,
    ) -> (r: String) {
        display_cmp_impl("~", lhs_debug, lhs_source, rhs_debug, rhs_source)
    }
}

} // verus!
