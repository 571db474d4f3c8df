//! The capability traits of the dispatch contract: a comparator decides a
//! relation over a pair of operands, names its failure kind, and the failure
//! kind renders a diagnostic.

use vstd::prelude::*;

verus! {

/// Names the failure kind produced when comparator `C` fails on operands of
/// types `Lhs` and `Rhs`.
pub trait CmpError<C, Lhs, Rhs>: Sized {
    type Error;
}

/// A comparator: decides whether the relation it stands for holds of a pair
/// of operands. `test` is pure: it has no side effects and its outcome
/// depends on the operands alone.
pub trait Cmp<Lhs, Rhs>: CmpError<Self, Lhs, Rhs> {
    /// Whether `test_spec` pins the executable outcome down for these operand
    /// types. The built-in comparators obey whenever the operand type's
    /// native comparison obeys its own specification.
    spec fn obeys_test_spec() -> bool;

    /// The relation this comparator decides.
    spec fn test_spec(&self, lhs: &Lhs, rhs: &Rhs) -> bool;

    /// Succeeds exactly when the relation holds.
    fn test(&self, lhs: &Lhs, rhs: &Rhs) -> (r: Result<(), Self::Error>)
        ensures
            Self::obeys_test_spec() ==> (r is Ok <==> self.test_spec(lhs, rhs)),
    ;
}

/// Renders a failure of comparator `C` on operands of types `Lhs` and `Rhs`
/// into diagnostic text. Implemented by the failure kind itself, so a custom
/// comparator can supply its own rendering.
pub trait CmpDisplay<C, Lhs, Rhs> {
    /// The text `fmt` produces, as a function of the comparator, the
    /// operands, and the captured source and debug text.
    spec fn fmt_spec(
        cmp: &C,
        lhs: &Lhs,
        lhs_source: Seq<char>,
        lhs_debug: Seq<char>,
        rhs: &Rhs,
        rhs_source: Seq<char>,
        rhs_debug: Seq<char>,
    ) -> Seq<char>;

    /// Renders one failing comparison for the diagnostic report.
    fn fmt(
        &self,
        cmp: &C,
        lhs: &Lhs,
        lhs_source: &str,
        lhs_debug: &str,
        rhs: &Rhs,
        rhs_source: &str,
        rhs_debug: &str,
    ) -> (r: String)
        ensures
            r@ == Self::fmt_spec(cmp, lhs, lhs_source@, lhs_debug@, rhs, rhs_source@, rhs_debug@),
    ;
}

} // verus!
