//! The engine's run-time limit categories.
use vstd::prelude::*;

verus! {

/// Run-Time Limit Categories
#[derive(Clone, Copy, Debug, PartialEq, Eq, Structural)]
pub enum Limit {
    /// The maximum size of any string or BLOB or table row, in bytes.
    SQLITE_LIMIT_LENGTH,
    /// The maximum length of an SQL statement, in bytes.
    SQLITE_LIMIT_SQL_LENGTH,
    /// The maximum number of columns in a table definition or in the result set of a SELECT
    /// or the maximum number of columns in an index or in an ORDER BY or GROUP BY clause.
    SQLITE_LIMIT_COLUMN,
    /// The maximum depth of the parse tree on any expression.
    SQLITE_LIMIT_EXPR_DEPTH,
    /// The maximum number of terms in a compound SELECT statement.
    SQLITE_LIMIT_COMPOUND_SELECT,
    /// The maximum number of instructions in a virtual machine program used to implement an SQL statement.
    SQLITE_LIMIT_VDBE_OP,
    /// The maximum number of arguments on a function.
    SQLITE_LIMIT_FUNCTION_ARG,
    /// The maximum number of attached databases.
    SQLITE_LIMIT_ATTACHED,
    /// The maximum length of the pattern argument to the LIKE or GLOB operators.
    SQLITE_LIMIT_LIKE_PATTERN_LENGTH,
    /// The maximum index number of any parameter in an SQL statement.
    SQLITE_LIMIT_VARIABLE_NUMBER,
    /// The maximum depth of recursion for triggers.
    SQLITE_LIMIT_TRIGGER_DEPTH,
    /// The maximum number of auxiliary worker threads that a single prepared statement may start.
    SQLITE_LIMIT_WORKER_THREADS,
}

/// The category's code in the engine's C interface.
pub open spec fn spec_limit_code(l: Limit) -> i32 {
    match l {
        Limit::SQLITE_LIMIT_LENGTH => 0,
        Limit::SQLITE_LIMIT_SQL_LENGTH => 1,
        Limit::SQLITE_LIMIT_COLUMN => 2,
        Limit::SQLITE_LIMIT_EXPR_DEPTH => 3,
        Limit::SQLITE_LIMIT_COMPOUND_SELECT => 4,
        Limit::SQLITE_LIMIT_VDBE_OP => 5,
        Limit::SQLITE_LIMIT_FUNCTION_ARG => 6,
        Limit::SQLITE_LIMIT_ATTACHED => 7,
        Limit::SQLITE_LIMIT_LIKE_PATTERN_LENGTH => 8,
        Limit::SQLITE_LIMIT_VARIABLE_NUMBER => 9,
        Limit::SQLITE_LIMIT_TRIGGER_DEPTH => 10,
        Limit::SQLITE_LIMIT_WORKER_THREADS => 11,
    }
}

impl Limit {
    /// The category's code in the engine's C interface.
    pub fn code(&self) -> (r: i32)
        ensures
            r == spec_limit_code(*self),
    {
        match self {
            Limit::SQLITE_LIMIT_LENGTH => 0,
            Limit::SQLITE_LIMIT_SQL_LENGTH => 1,
            Limit::SQLITE_LIMIT_COLUMN => 2,
            Limit::SQLITE_LIMIT_EXPR_DEPTH => 3,
            Limit::SQLITE_LIMIT_COMPOUND_SELECT => 4,
            Limit::SQLITE_LIMIT_VDBE_OP => 5,
            Limit::SQLITE_LIMIT_FUNCTION_ARG => 6,
            Limit::SQLITE_LIMIT_ATTACHED => 7,
            Limit::SQLITE_LIMIT_LIKE_PATTERN_LENGTH => 8,
            Limit::SQLITE_LIMIT_VARIABLE_NUMBER => 9,
            Limit::SQLITE_LIMIT_TRIGGER_DEPTH => 10,
            Limit::SQLITE_LIMIT_WORKER_THREADS => 11,
        }
    }
}

} // verus!
