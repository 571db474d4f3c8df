//! Debug rendering of operand values, produced only on the failure path.
//!
//! Every operand type handed to the engine must be able to dump itself as
//! human-readable text; [`DebugRender`] is that capability, and this module
//! supplies verified decimal renderings for the integer types and `bool`.

use vstd::prelude::*;

use vstd::string::StringExecFns;

verus! {

/// The decimal digit character for `d` (meaningful for `d < 10`).
pub open spec fn digit_char(d: nat) -> char {
    if d == 0 {
        '0'
    } else if d == 1 {
        '1'
    } else if d == 2 {
        '2'
    } else if d == 3 {
        '3'
    } else if d == 4 {
        '4'
    } else if d == 5 {
        '5'
    } else if d == 6 {
        '6'
    } else if d == 7 {
        '7'
    } else if d == 8 {
        '8'
    } else {
        '9'
    }
}

/// Decimal rendering of `n`: most significant digit first, no leading zeros
/// (a single `'0'` for zero).
pub open spec fn dec_digits(n: nat) -> Seq<char>
    decreases n,
{
    if n < 10 {
        seq![digit_char(n)]
    } else {
        dec_digits(n / 10) + seq![digit_char(n % 10)]
    }
}

/// Decimal rendering of a signed value: a leading `'-'` for negatives.
pub open spec fn int_digits(n: int) -> Seq<char> {
    if n < 0 {
        seq!['-'] + dec_digits((-n) as nat)
    } else {
        dec_digits(n as nat)
    }
}

fn digit_str(d: u64) -> (r: &'static str)
    requires
        d < 10,
    ensures
        r@ == seq![digit_char(d as nat)],
{
    let r: &'static str = if d == 0 {
        "0"
    } else if d == 1 {
        "1"
    } else if d == 2 {
        "2"
    } else if d == 3 {
        "3"
    } else if d == 4 {
        "4"
    } else if d == 5 {
        "5"
    } else if d == 6 {
        "6"
    } else if d == 7 {
        "7"
    } else if d == 8 {
        "8"
    } else {
        "9"
    };
    proof {
        reveal_strlit("0");
        reveal_strlit("1");
        reveal_strlit("2");
        reveal_strlit("3");
        reveal_strlit("4");
        reveal_strlit("5");
        reveal_strlit("6");
        reveal_strlit("7");
        reveal_strlit("8");
        reveal_strlit("9");
        assert(r@ =~= seq![digit_char(d as nat)]);
    }
    r
}

/// Renders `n` in decimal.
pub fn render_u64(n: u64) -> (r: String)
    ensures
        r@ == dec_digits(n as nat),
    decreases n,
{
    if n < 10 {
        digit_str(n).to_owned()
    } else {
        let mut r = render_u64(n / 10);
        r.append(digit_str(n % 10));
        proof {
            assert(r@ =~= dec_digits(n as nat));
        }
        r
    }
}

/// Renders `n` in decimal, with a leading `'-'` when `n` is negative.
pub fn render_i64(n: i64) -> (r: String)
    ensures
        r@ == int_digits(n as int),
{
    if n >= 0 {
        let r = render_u64(n as u64);
        proof {
            assert(r@ =~= int_digits(n as int));
        }
        r
    } else {
        let magnitude: u64 = (-(n as i128)) as u64;
        let mut r = "-".to_owned();
        let digits = render_u64(magnitude);
        r.append(digits.as_str());
        proof {
            reveal_strlit("-");
            assert(r@ =~= int_digits(n as int));
        }
        r
    }
}

/// The capability every operand type handed to the engine must satisfy:
/// a structured, human-readable dump of the value, rendered only when a
/// diagnostic is being built.
pub trait DebugRender {
    /// The text `debug_render` produces.
    spec fn debug_spec(&self) -> Seq<char>;

    /// Renders the value for a diagnostic report.
    fn debug_render(&self) -> (r: String)
        ensures
            r@ == self.debug_spec(),
    ;
}

impl DebugRender for u64 {
    open spec fn debug_spec(&self) -> Seq<char> {
        dec_digits(*self as nat)
    }

    fn debug_render(&self) -> (r: String) {
        render_u64(*self)
    }
}

impl DebugRender for u32 {
    open spec fn debug_spec(&self) -> Seq<char> {
        dec_digits(*self as nat)
    }

    fn debug_render(&self) -> (r: String) {
        render_u64(*self as u64)
    }
}

impl DebugRender for u16 {
    open spec fn debug_spec(&self) -> Seq<char> {
        dec_digits(*self as nat)
    }

    fn debug_render(&self) -> (r: String) {
        render_u64(*self as u64)
    }
}

impl DebugRender for u8 {
    open spec fn debug_spec(&self) -> Seq<char> {
        dec_digits(*self as nat)
    }

    fn debug_render(&self) -> (r: String) {
        render_u64(*self as u64)
    }
}

impl DebugRender for usize {
    open spec fn debug_spec(&self) -> Seq<char> {
        dec_digits(*self as nat)
    }

    fn debug_render(&self) -> (r: String) {
        render_u64(*self as u64)
    }
}

impl DebugRender for i64 {
    open spec fn debug_spec(&self) -> Seq<char> {
        int_digits(*self as int)
    }

    fn debug_render(&self) -> (r: String) {
        render_i64(*self)
    }
}

impl DebugRender for i32 {
    open spec fn debug_spec(&self) -> Seq<char> {
        int_digits(*self as int)
    }

    fn debug_render(&self) -> (r: String) {
        render_i64(*self as i64)
    }
}

impl DebugRender for i16 {
    open spec fn debug_spec(&self) -> Seq<char> {
        int_digits(*self as int)
    }

    fn debug_render(&self) -> (r: String) {
        render_i64(*self as i64)
    }
}

impl DebugRender for i8 {
    open spec fn debug_spec(&self) -> Seq<char> {
        int_digits(*self as int)
    }

    fn debug_render(&self) -> (r: String) {
        render_i64(*self as i64)
    }
}

impl DebugRender for isize {
    open spec fn debug_spec(&self) -> Seq<char> {
        int_digits(*self as int)
    }

    fn debug_render(&self) -> (r: String) {
        render_i64(*self as i64)
    }
}

impl DebugRender for bool {
    open spec fn debug_spec(&self) -> Seq<char> {
        if *self {
            "true"@
        } else {
            "false"@
        }
    }

    fn debug_render(&self) -> (r: String) {
        if *self {
            "true".to_owned()
        } else {
            "false".to_owned()
        }
    }
}

} // verus!
