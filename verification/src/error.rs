//! The closed taxonomy of fold-time failures and their human-readable
//! messages. A fold of one statement stops at its first error; the
//! program-level pass collects one error per failing statement.

use vstd::prelude::*;
use vstd::string::StringExecFns;

use crate::ast::{Expression, ExpressionView};
use crate::render::{expression_debug_string, spec_expression_debug};

verus! {

/// A failure of the folding pass. `InvalidOperation` and
/// `UnsupportedExpression` are reserved extension points: the folding
/// algorithm itself raises only the other four kinds.
#[derive(Debug, PartialEq)]
pub enum FoldError {
    Overflow,
    Underflow,
    DivisionByZero,
    InvalidOperation(String),
    UnsupportedExpression(Expression),
    TypeMismatch { expected: String, found: String },
}

/// Model of a [`FoldError`].
#[verifier::ext_equal]
pub enum FoldErrorView {
    Overflow,
    Underflow,
    DivisionByZero,
    InvalidOperation(Seq<char>),
    UnsupportedExpression(ExpressionView),
    TypeMismatch { expected: Seq<char>, found: Seq<char> },
}

impl View for FoldError {
    type V = FoldErrorView;

    open spec fn view(&self) -> FoldErrorView {
        match *self {
            FoldError::Overflow => FoldErrorView::Overflow,
            FoldError::Underflow => FoldErrorView::Underflow,
            FoldError::DivisionByZero => FoldErrorView::DivisionByZero,
            FoldError::InvalidOperation(msg) => FoldErrorView::InvalidOperation(msg@),
            FoldError::UnsupportedExpression(e) => FoldErrorView::UnsupportedExpression(e@),
            FoldError::TypeMismatch { expected, found } => FoldErrorView::TypeMismatch {
                expected: expected@,
                found: found@,
            },
        }
    }
}

/// The message that each error kind renders to.
pub open spec fn spec_error_message(e: FoldErrorView) -> Seq<char> {
    match e {
        FoldErrorView::Overflow => "Overflow occurred during operation"@,
        FoldErrorView::Underflow => "Underflow occurred during operation"@,
        FoldErrorView::DivisionByZero => "Division by zero"@,
        FoldErrorView::InvalidOperation(msg) => "Invalid operation: "@ + msg,
        FoldErrorView::UnsupportedExpression(e) => "Unsupported expression: "@
            + spec_expression_debug(e),
        FoldErrorView::TypeMismatch { expected, found } => "Type mismatch: expected "@ + expected
            + ", but found "@ + found,
    }
}

impl FoldError {
    /// Renders the error for a diagnostic stream.
    pub fn message(&self) -> (r: String)
        ensures
            r@ == spec_error_message(self@),
    {
        match self {
            FoldError::Overflow => String::from_str("Overflow occurred during operation"),
            FoldError::Underflow => String::from_str("Underflow occurred during operation"),
            FoldError::DivisionByZero => String::from_str("Division by zero"),
            FoldError::InvalidOperation(op) => {
                let mut s = String::from_str("Invalid operation: ");
                s.append(op.as_str());
                proof {
                    assert(s@ =~= spec_error_message(self@));
                }
                s
            },
            FoldError::UnsupportedExpression(expr) => {
                let mut s = String::from_str("Unsupported expression: ");
                let d = expression_debug_string(expr);
                s.append(d.as_str());
                proof {
                    assert(s@ =~= spec_error_message(self@));
                }
                s
            },
            FoldError::TypeMismatch { expected, found } => {
                let mut s = String::from_str("Type mismatch: expected ");
                s.append(expected.as_str());
                s.append(", but found ");
                s.append(found.as_str());
                proof {
                    assert(s@ =~= spec_error_message(self@));
                }
                s
            },
        }
    }
}

impl From<String> for FoldError {
    /// A lower-level textual failure is wrapped as an invalid operation.
    fn from(error: String) -> (r: Self) {
        FoldError::InvalidOperation(error)
    }
}

impl vstd::std_specs::convert::FromSpecImpl<String> for FoldError {
    open spec fn obeys_from_spec() -> bool {
        true
    }

    open spec fn from_spec(error: String) -> Self {
        FoldError::InvalidOperation(error)
    }
}

} // verus!
