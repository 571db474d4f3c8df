//! Observational short-circuit tests: a counting comparator records whether
//! the engine ever invoked it.

use std::cell::Cell;
use std::rc::Rc;

use equator::decompose::Expr;
use equator::expr::{AndExpr, CmpExpr, CustomCmpExpr, OrExpr};
use equator::ops::Single;
use equator::report::{evaluate_debug_assert, NoMessage};

struct CountingCmp {
    calls: Rc<Cell<u32>>,
    outcome: bool,
}

struct CountingError;

impl equator::traits::CmpError<CountingCmp, u64, u64> for CountingCmp {
    type Error = CountingError;
}

impl equator::traits::Cmp<u64, u64> for CountingCmp {
    // The ghost items of the trait are erased before execution and are never
    // called; inert bodies keep the impl complete.
    fn obeys_test_spec() -> bool {
        false
    }

    fn test_spec(&self, _lhs: &u64, _rhs: &u64) -> bool {
        self.outcome
    }

    fn test(&self, _lhs: &u64, _rhs: &u64) -> Result<(), CountingError> {
        self.calls.set(self.calls.get() + 1);
        if self.outcome {
            Ok(())
        } else {
            Err(CountingError)
        }
    }
}

impl equator::traits::CmpDisplay<CountingCmp, u64, u64> for CountingError {
    fn fmt_spec(
        _cmp: &CountingCmp,
        _lhs: &u64,
        _lhs_source: vstd::seq::Seq<char>,
        _lhs_debug: vstd::seq::Seq<char>,
        _rhs: &u64,
        _rhs_source: vstd::seq::Seq<char>,
        _rhs_debug: vstd::seq::Seq<char>,
    ) -> vstd::seq::Seq<char> {
        panic!()
    }

    fn fmt(
        &self,
        _cmp: &CountingCmp,
        _lhs: &u64,
        lhs_source: &str,
        lhs_debug: &str,
        _rhs: &u64,
        rhs_source: &str,
        rhs_debug: &str,
    ) -> String {
        equator::report::display_cmp_impl("=?", lhs_debug, lhs_source, rhs_debug, rhs_source)
    }
}

fn counting_leaf(
    calls: &Rc<Cell<u32>>,
    outcome: bool,
) -> CustomCmpExpr<CountingCmp, u64, u64> {
    CustomCmpExpr {
        cmp: CountingCmp { calls: calls.clone(), outcome },
        lhs: 0u64,
        rhs: 0u64,
        lhs_source: "0",
        rhs_source: "0",
    }
}

#[test]
fn conjunction_never_invokes_right_comparator_after_left_failure() {
    let calls = Rc::new(Cell::new(0u32));
    let e = AndExpr {
        lhs: CmpExpr {
            cmp: equator::ops::Eq,
            lhs: Single(1u64),
            rhs: Single(2u64),
            lhs_source: "1",
            rhs_source: "2",
        },
        rhs: counting_leaf(&calls, true),
    };
    assert!(!e.eval());
    assert_eq!(calls.get(), 0);
    let records = e.decompose();
    assert_eq!(records.len(), 1);
    assert_eq!(calls.get(), 0);
}

#[test]
fn disjunction_never_invokes_right_comparator_after_left_success() {
    let calls = Rc::new(Cell::new(0u32));
    let e = OrExpr {
        lhs: CmpExpr {
            cmp: equator::ops::Eq,
            lhs: Single(1u64),
            rhs: Single(1u64),
            lhs_source: "1",
            rhs_source: "1",
        },
        rhs: counting_leaf(&calls, true),
    };
    assert!(e.eval());
    assert_eq!(calls.get(), 0);
    assert_eq!(e.decompose().len(), 0);
    assert_eq!(calls.get(), 0);
}

#[test]
fn conjunction_invokes_right_comparator_when_left_holds() {
    let calls = Rc::new(Cell::new(0u32));
    let e = AndExpr {
        lhs: CmpExpr {
            cmp: equator::ops::Eq,
            lhs: Single(1u64),
            rhs: Single(1u64),
            lhs_source: "1",
            rhs_source: "1",
        },
        rhs: counting_leaf(&calls, true),
    };
    assert!(e.eval());
    assert_eq!(calls.get(), 1);
}

#[test]
fn disabled_debug_mode_invokes_no_comparator() {
    let calls = Rc::new(Cell::new(0u32));
    let e = counting_leaf(&calls, false);
    assert!(evaluate_debug_assert(false, &e, "dbg.rs", 3, 1, NoMessage).is_ok());
    assert_eq!(calls.get(), 0);
}
