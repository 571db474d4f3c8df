//! Runtime core of an assertion engine: comparison dispatch over six
//! relational operator tags, boolean expression trees evaluated with
//! short-circuit semantics, and structured diagnostic reports built only on
//! the failure path.

pub mod decompose;
pub mod expr;
pub mod laws;
pub mod ops;
pub mod render;
pub mod report;
pub mod traits;

pub use crate::decompose::{Expr, LeafRecord, LeafRecordSpec};
pub use crate::expr::{AndExpr, CmpExpr, CustomCmpExpr, OrExpr};
pub use crate::ops::{
    AbsDiff, AbsDiffError, EqError, Ge, GeError, Gt, GtError, Le, LeError, Lt, LtError, Ne,
    NeError, Single,
};
pub use crate::render::DebugRender;
pub use crate::report::{
    display_cmp_impl, evaluate_assert, evaluate_debug_assert, panic_failed_assert, Message,
    MessageArg, NoMessage,
};
pub use crate::traits::{Cmp, CmpDisplay, CmpError};
