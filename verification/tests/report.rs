//! Content of the diagnostic reports: the exact three-line template, the
//! source location, the optional message, and the debug renderings.

use equator::decompose::Expr;
use equator::expr::{AndExpr, CmpExpr};
use equator::ops::{Lt, Single};
use equator::render::DebugRender;
use equator::report::{
    display_cmp_impl, evaluate_assert, evaluate_debug_assert, panic_failed_assert, Message,
    NoMessage,
};

#[test]
fn report_contains_exact_template_lines() {
    let e = CmpExpr {
        cmp: equator::ops::Eq,
        lhs: Single(1i32),
        rhs: Single(2i32),
        lhs_source: "1",
        rhs_source: "2",
    };
    let report = evaluate_assert(&e, "src/calc.rs", 12, 9, NoMessage).unwrap_err();
    assert_eq!(
        report,
        "Assertion failed: 1 == 2\n- 1 = 1\n- 2 = 2\nat src/calc.rs:12:9"
    );
}

#[test]
fn compound_report_contains_only_failing_leaf() {
    let e = AndExpr {
        lhs: CmpExpr {
            cmp: equator::ops::Eq,
            lhs: Single(1u64),
            rhs: Single(1u64),
            lhs_source: "1",
            rhs_source: "1",
        },
        rhs: CmpExpr {
            cmp: equator::ops::Eq,
            lhs: Single(2u64),
            rhs: Single(3u64),
            lhs_source: "2",
            rhs_source: "3",
        },
    };
    let report = evaluate_assert(&e, "src/calc.rs", 4, 4, NoMessage).unwrap_err();
    assert!(report.contains("Assertion failed: 2 == 3"));
    assert!(report.contains("- 2 = 2"));
    assert!(report.contains("- 3 = 3"));
    assert!(!report.contains("1 == 1"));
}

#[test]
fn display_cmp_impl_renders_the_template() {
    let r = display_cmp_impl("<", "3", "a", "4", "b");
    assert_eq!(r, "Assertion failed: a < b\n- a = 3\n- b = 4");
}

#[test]
fn panic_failed_assert_assembles_location_and_message() {
    let e = CmpExpr {
        cmp: Lt,
        lhs: Single(9u64),
        rhs: Single(4u64),
        lhs_source: "nine",
        rhs_source: "four",
    };
    let records = e.decompose();
    let report = panic_failed_assert(&records, "m.rs", 40, 2, Message("sizes out of order"));
    assert_eq!(
        report,
        "Assertion failed: nine < four\n- nine = 9\n- four = 4\nat m.rs:40:2\nsizes out of order"
    );
}

#[test]
fn empty_message_is_omitted_from_the_report() {
    let e = CmpExpr {
        cmp: Lt,
        lhs: Single(9u64),
        rhs: Single(4u64),
        lhs_source: "9",
        rhs_source: "4",
    };
    let records = e.decompose();
    let report = panic_failed_assert(&records, "m.rs", 1, 1, Message(""));
    assert!(!report.ends_with("\n"));
    assert!(report.ends_with("at m.rs:1:1"));
}

#[test]
fn debug_rendering_matches_decimal() {
    assert_eq!(0u64.debug_render(), "0");
    assert_eq!(10u64.debug_render(), "10");
    assert_eq!(12345u64.debug_render(), "12345");
    assert_eq!(u64::MAX.debug_render(), "18446744073709551615");
    assert_eq!((-123i64).debug_render(), "-123");
    assert_eq!(0i64.debug_render(), "0");
    assert_eq!(i64::MIN.debug_render(), "-9223372036854775808");
    assert_eq!(i64::MAX.debug_render(), "9223372036854775807");
    assert_eq!(255u8.debug_render(), "255");
    assert_eq!(65535u16.debug_render(), "65535");
    assert_eq!(4000000000u32.debug_render(), "4000000000");
    assert_eq!(42usize.debug_render(), "42");
    assert_eq!((-7i8).debug_render(), "-7");
    assert_eq!((-30000i16).debug_render(), "-30000");
    assert_eq!(2147483647i32.debug_render(), "2147483647");
    assert_eq!((-1isize).debug_render(), "-1");
    assert_eq!(true.debug_render(), "true");
    assert_eq!(false.debug_render(), "false");
}

#[test]
fn negative_operands_render_in_the_report() {
    let e = CmpExpr {
        cmp: Lt,
        lhs: Single(-5i64),
        rhs: Single(-10i64),
        lhs_source: "a",
        rhs_source: "b",
    };
    let report = evaluate_assert(&e, "neg.rs", 2, 3, NoMessage).unwrap_err();
    assert!(report.contains("- a = -5"));
    assert!(report.contains("- b = -10"));
}

#[test]
#[should_panic]
fn test_assert() {
    let e = CmpExpr {
        cmp: equator::ops::Eq,
        lhs: Single(false),
        rhs: Single(true),
        lhs_source: "false",
        rhs_source: "true",
    };
    if let Err(report) = evaluate_assert(&e, "lib.rs", 1, 5, NoMessage) {
        panic!("{}", report);
    }
}

#[test]
#[should_panic]
fn test_debug_assert() {
    let e = CmpExpr {
        cmp: equator::ops::Eq,
        lhs: Single(false),
        rhs: Single(true),
        lhs_source: "false",
        rhs_source: "true",
    };
    if let Err(report) = evaluate_debug_assert(true, &e, "lib.rs", 2, 5, NoMessage) {
        panic!("{}", report);
    }
}
