//! The diagnostic constructor: the fixed three-line template rendered for
//! each failing leaf, the assembly of the whole failure report from the
//! captured records, the source location and the optional message, and the
//! two invocation modes of the engine.
//!
//! Nothing here runs on the success path: a passing expression produces no
//! text and no report.

use vstd::prelude::*;

use crate::decompose::{records_view, Expr, LeafRecord, LeafRecordSpec};
use crate::render::{dec_digits, render_u64};
use vstd::string::StringExecFns;

verus! {

/// The fixed three-line template rendered for one failing comparison:
///
/// ```text
/// Assertion failed: <lhs_source> <sym> <rhs_source>
/// - <lhs_source> = <lhs_debug>
/// - <rhs_source> = <rhs_debug>
/// ```
pub open spec fn cmp_template(
    sym: Seq<char>,
    lhs_source: Seq<char>,
    lhs_debug: Seq<char>,
    rhs_source: Seq<char>,
    rhs_debug: Seq<char>,
) -> Seq<char> {
    "Assertion failed: "@ + lhs_source + " "@ + sym + " "@ + rhs_source + "\n- "@ + lhs_source
        + " = "@ + lhs_debug + "\n- "@ + rhs_source + " = "@ + rhs_debug
}

/// Renders the three-line failure template shared by the six built-in
/// operators; only the operator symbol `cmp` differs between them.
pub fn display_cmp_impl(
    cmp: &str,
    lhs: &str,
    lhs_source: &str,
    rhs: &str,
    rhs_source: &str,
) -> (r: String)
    ensures
        r@ == cmp_template(cmp@, lhs_source@, lhs@, rhs_source@, rhs@),
{
    let mut r = "Assertion failed: ".to_owned();
    r.append(lhs_source);
    r.append(" ");
    r.append(cmp);
    r.append(" ");
    r.append(rhs_source);
    r.append("\n- ");
    r.append(lhs_source);
    r.append(" = ");
    r.append(lhs);
    r.append("\n- ");
    r.append(rhs_source);
    r.append(" = ");
    r.append(rhs);
    proof {
        assert(r@ =~= cmp_template(cmp@, lhs_source@, lhs@, rhs_source@, rhs@));
    }
    r
}

/// The per-leaf chunks of a report, each followed by one newline.
pub open spec fn joined_records(records: Seq<LeafRecordSpec>) -> Seq<char>
    decreases records.len(),
{
    if records.len() == 0 {
        Seq::empty()
    } else {
        records[0].rendered + "\n"@ + joined_records(records.drop_first())
    }
}

/// Appending one record extends the joined text by that record's chunk.
proof fn lemma_joined_records_push(records: Seq<LeafRecordSpec>, record: LeafRecordSpec)
    ensures
        joined_records(records.push(record)) == joined_records(records) + record.rendered + "\n"@,
    decreases records.len(),
{
    let p = records.push(record);
    if records.len() == 0 {
        assert(p[0] == record);
        assert(p.drop_first() =~= Seq::<LeafRecordSpec>::empty());
        assert(joined_records(p) == record.rendered + "\n"@ + joined_records(
            Seq::<LeafRecordSpec>::empty(),
        ));
        assert(joined_records(p) =~= joined_records(records) + record.rendered + "\n"@);
    } else {
        assert(p[0] == records[0]);
        assert(p.drop_first() =~= records.drop_first().push(record));
        lemma_joined_records_push(records.drop_first(), record);
        assert(joined_records(p) == records[0].rendered + "\n"@ + joined_records(p.drop_first()));
        assert(joined_records(p) =~= joined_records(records) + record.rendered + "\n"@);
    }
}

/// The whole failure report: the per-leaf chunks, the source location, and
/// the optional user message (omitted when empty).
pub open spec fn report_spec(
    records: Seq<LeafRecordSpec>,
    file: Seq<char>,
    line: u64,
    col: u64,
    message: Seq<char>,
) -> Seq<char> {
    joined_records(records) + "at "@ + file + ":"@ + dec_digits(line as nat) + ":"@ + dec_digits(
        col as nat,
    ) + (if message.len() == 0 {
        Seq::<char>::empty()
    } else {
        "\n"@ + message
    })
}

/// An optional user-supplied message for the report.
pub trait MessageArg {
    /// The message text; empty when no message was supplied.
    spec fn msg_spec(&self) -> Seq<char>;

    /// The message text to place in the report.
    fn msg_str(&self) -> (r: &str)
        ensures
            r@ == self.msg_spec(),
    ;
}

/// A user-supplied message.
pub struct Message<'a>(pub &'a str);

/// The absence of a user-supplied message.
pub struct NoMessage;

impl<'a> MessageArg for Message<'a> {
    open spec fn msg_spec(&self) -> Seq<char> {
        self.0@
    }

    fn msg_str(&self) -> (r: &str) {
        self.0
    }
}

impl MessageArg for NoMessage {
    open spec fn msg_spec(&self) -> Seq<char> {
        Seq::empty()
    }

    fn msg_str(&self) -> (r: &str) {
        let r = "";
        proof {
            reveal_strlit("");
            assert(r@ =~= Seq::<char>::empty());
        }
        r
    }
}

/// Builds the final failure report from the captured records, the source
/// location of the assertion, and the optional message. The sole caller is
/// the failing branch of an invocation: the caller terminates with the
/// returned text.
pub fn panic_failed_assert<M: MessageArg>(
    records: &Vec<LeafRecord>,
    file: &str,
    line: u64,
    col: u64,
    message: M,
) -> (r: String)
    ensures
        r@ == report_spec(records_view(records@), file@, line, col, message.msg_spec()),
{
    let ghost all = records_view(records@);
    let mut r = String::new();
    let mut i: usize = 0;
    while i < records.len()
        invariant
            i <= records.len(),
            all == records_view(records@),
            r@ == joined_records(all.take(i as int)),
        decreases records.len() - i,
    {
        proof {
            assert(all.take(i as int).push(all[i as int]) =~= all.take(i + 1));
            lemma_joined_records_push(all.take(i as int), all[i as int]);
        }
        r.append(records[i].rendered.as_str());
        r.append("\n");
        i += 1;
    }
    proof {
        assert(all.take(records@.len() as int) =~= all);
    }
    r.append("at ");
    r.append(file);
    r.append(":");
    let line_text = render_u64(line);
    r.append(line_text.as_str());
    r.append(":");
    let col_text = render_u64(col);
    r.append(col_text.as_str());
    let msg = message.msg_str();
    if !msg.is_empty() {
        r.append("\n");
        r.append(msg);
    }
    proof {
        assert(r@ =~= report_spec(all, file@, line, col, message.msg_spec()));
    }
    r
}

/// The loud invocation mode: evaluates the expression and, exactly when it
/// fails, returns the full diagnostic report for the caller to terminate
/// with. A passing expression returns nothing and builds no text.
pub fn evaluate_assert<E: Expr, M: MessageArg>(
    expr: &E,
    file: &str,
    line: u64,
    col: u64,
    message: M,
) -> (r: Result<(), String>)
    ensures
        expr.obeys() ==> (r is Ok <==> expr.eval_spec()),
        expr.obeys() && !expr.eval_spec() ==> (r matches Err(report) && report@ == report_spec(
            expr.records_spec(),
            file@,
            line,
            col,
            message.msg_spec(),
        )),
{
    if expr.eval() {
        Ok(())
    } else {
        let records = expr.decompose();
        Err(panic_failed_assert(&records, file, line, col, message))
    }
}

/// The debug-only invocation mode: when `enabled` is false it is a no-op
/// with no observable effect, whatever the expression; when `enabled` is
/// true it is [`evaluate_assert`]. The `enabled` test comes before any
/// comparator runs.
pub fn evaluate_debug_assert<E: Expr, M: MessageArg>(
    enabled: bool,
    expr: &E,
    file: &str,
    line: u64,
    col: u64,
    message: M,
) -> (r: Result<(), String>)
    ensures
        !enabled ==> r is Ok,
        enabled && expr.obeys() ==> (r is Ok <==> expr.eval_spec()),
        enabled && expr.obeys() && !expr.eval_spec() ==> (r matches Err(report) && report@
            == report_spec(expr.records_spec(), file@, line, col, message.msg_spec())),
{
    if !enabled {
        Ok(())
    } else {
        evaluate_assert(expr, file, line, col, message)
    }
}

} // verus!
