//! The plain model of a test function's body: what the rewrite reads of each
//! statement, and the plan it produces.

use vstd::prelude::*;

verus! {

/// The pattern of one arm of a `match CASE { ... }`, as far as the rewrite
/// cares: only a string-literal pattern is acceptable, and its value is what
/// names the generated test.
#[derive(Debug)]
pub enum ArmPat {
    /// A string-literal pattern, with the literal's value.
    StrLit(String),
    /// A literal pattern of some other kind (a number, a byte string, ...).
    OtherLit,
    /// Not a literal pattern at all.
    NotLit,
}

/// One statement of the test function's body, reduced to the two facts the
/// rewrite reads of it.
#[derive(Debug)]
pub struct StmtInfo {
    /// Whether the statement contains an `async` block or an `.await`
    /// anywhere inside it.
    pub has_async: bool,
    /// The arm patterns, when the statement is a `let` binding whose
    /// initializer is a `match` on the bare identifier `CASE`; `None` for
    /// every other statement.
    pub case_arms: Option<Vec<ArmPat>>,
}

/// Which complaint an unacceptable arm earns.
#[derive(Debug, Clone, Copy, PartialEq, Eq, Structural)]
pub enum CaseErrorKind {
    /// The arm's pattern is not a string literal.
    ExpectedStringLiteral,
    /// The arm's pattern is a string literal whose value cannot stand as an
    /// identifier suffix.
    NotValidIdentifier,
}

/// The first unacceptable arm of the case dispatch, and what is wrong with it.
#[derive(Debug, Clone, Copy, PartialEq, Eq, Structural)]
pub struct CaseError {
    /// Index of the offending arm within the `match`.
    pub arm: usize,
    /// What is wrong with that arm.
    pub kind: CaseErrorKind,
}

/// One generated test function of a case dispatch.
#[derive(Debug)]
pub struct Variant {
    /// The generated function's name: the original name, an underscore, and
    /// the case's value.
    pub name: String,
    /// The case's value, to be bound as the `CASE` constant.
    pub value: String,
}

/// The rewrite's plan for one test function.
#[derive(Debug)]
pub enum Plan {
    /// No case dispatch (or one with no arms at all): emit a single test,
    /// whose statements from `split_at` onward run inside the async runtime.
    Single {
        /// Index of the first statement that touches async code, or the
        /// body's length when none does.
        split_at: usize,
    },
    /// A case dispatch with at least one arm: emit one test per variant.
    Cases {
        /// Index of the first statement that touches async code, or the
        /// body's length when none does.
        split_at: usize,
        /// Index of the statement that binds the `match CASE`.
        case_stmt: usize,
        /// Whether that statement still stands before the split, so that its
        /// initializer is to be replaced by each arm's body in turn. When
        /// the dispatch sits inside the async part, it is left in place.
        replace_case: bool,
        /// One entry per arm, in the arms' order.
        variants: Vec<Variant>,
    },
}

} // verus!
