//! The folding engine: a recursive evaluator that replaces every
//! sub-expression built entirely from integer literals by its computed value,
//! leaves identifiers intact, and reports arithmetic failures per statement.
//!
//! The algorithm is specified by `spec_fold_value`, `spec_fold_expression`
//! and `spec_eval_binary`; each executable function returns exactly what its
//! spec function says, for every input.

use vstd::prelude::*;
use vstd::string::StringExecFns;

use crate::ast::{
    expression_has_identifier, expression_is_literal, value_has_identifier, Expression,
    ExpressionView, Operator, Program, Statement, StatementView, Value, ValueView,
};
use crate::error::{FoldError, FoldErrorView};
use crate::render::{spec_value_debug, value_debug_string};

verus! {

/// Fixed-width evaluation of one operator over two integer literals:
/// checked arithmetic over the 8-bit unsigned domain. Overflow, underflow
/// and division by zero surface as errors, never as wrapped values.
pub open spec fn spec_eval_binary(op: Operator, a: u8, b: u8) -> Result<u8, FoldErrorView> {
    match op {
        Operator::Add => if a + b <= 255 {
            Ok((a + b) as u8)
        } else {
            Err(FoldErrorView::Overflow)
        },
        Operator::Subtract => if a >= b {
            Ok((a - b) as u8)
        } else {
            Err(FoldErrorView::Underflow)
        },
        Operator::Multiply => if a * b <= 255 {
            Ok((a * b) as u8)
        } else {
            Err(FoldErrorView::Overflow)
        },
        Operator::Divide => if b == 0 {
            Err(FoldErrorView::DivisionByZero)
        } else {
            Ok(a / b)
        },
    }
}

/// What folding a value yields: integers and identifiers are already fully
/// folded; a parenthesized sub-expression is folded and, when it collapses
/// to a single value, unwrapped one level.
pub open spec fn spec_fold_value(v: ValueView) -> Result<ValueView, FoldErrorView>
    decreases v,
{
    match v {
        ValueView::Integer(n) => Ok(ValueView::Integer(n)),
        ValueView::Identifier(name) => Ok(ValueView::Identifier(name)),
        ValueView::Expression(e) => match spec_fold_expression(*e) {
            Ok(folded) => match folded {
                ExpressionView::Value(inner) => Ok(*inner),
                _ => Ok(ValueView::Expression(Box::new(folded))),
            },
            Err(err) => Err(err),
        },
    }
}

/// What folding an expression yields. In a binary node both operands are
/// folded unconditionally; the node collapses to a literal only when the
/// left operand folds to an integer and the right operand collapses to a
/// single value. A right operand that collapses to a value other than an
/// integer under an integer left operand is a type mismatch; a right
/// operand that stays a binary node falls through to a partially folded
/// rebuild. This asymmetry is part of the design and is preserved exactly.
pub open spec fn spec_fold_expression(e: ExpressionView) -> Result<ExpressionView, FoldErrorView>
    decreases e,
{
    match e {
        ExpressionView::Value(v) => match spec_fold_value(*v) {
            Ok(folded) => Ok(ExpressionView::Value(Box::new(folded))),
            Err(err) => Err(err),
        },
        ExpressionView::Binary { left, operator, right } => match spec_fold_value(left) {
            Err(err) => Err(err),
            Ok(folded_left) => match spec_fold_expression(*right) {
                Err(err) => Err(err),
                Ok(folded_right) => match folded_left {
                    ValueView::Integer(a) => match folded_right {
                        ExpressionView::Value(rv) => match *rv {
                            ValueView::Integer(b) => match spec_eval_binary(operator, a, b) {
                                Ok(n) => Ok(
                                    ExpressionView::Value(Box::new(ValueView::Integer(n))),
                                ),
                                Err(err) => Err(err),
                            },
                            _ => Err(
                                (FoldErrorView::TypeMismatch {
                                    expected: "Integer"@,
                                    found: spec_value_debug(*rv),
                                }),
                            ),
                        },
                        _ => Ok(
                            (ExpressionView::Binary {
                                left: folded_left,
                                operator,
                                right: Box::new(folded_right),
                            }),
                        ),
                    },
                    _ => Ok(
                        (ExpressionView::Binary {
                            left: folded_left,
                            operator,
                            right: Box::new(folded_right),
                        }),
                    ),
                },
            },
        },
    }
}

/// What the program-level pass leaves in place of one statement: its folded
/// form when its fold succeeds, the statement unchanged when it fails.
pub open spec fn spec_fold_statement(s: StatementView) -> StatementView {
    match spec_fold_expression(s.expression) {
        Ok(folded) => StatementView { name: s.name, expression: folded },
        Err(_) => s,
    }
}

/// The errors of a run of statements, one per failing statement, in
/// statement order.
pub open spec fn spec_statement_errors(ss: Seq<StatementView>) -> Seq<FoldErrorView>
    decreases ss.len(),
{
    if ss.len() == 0 {
        Seq::empty()
    } else {
        spec_statement_errors(ss.drop_last()) + match spec_fold_expression(ss.last().expression) {
            Ok(_) => Seq::<FoldErrorView>::empty(),
            Err(err) => seq![err],
        }
    }
}

/// The view of a fold result over values.
pub open spec fn value_result_view(r: Result<Value, FoldError>) -> Result<
    ValueView,
    FoldErrorView,
> {
    match r {
        Ok(v) => Ok(v@),
        Err(e) => Err(e@),
    }
}

/// The view of a fold result over expressions.
pub open spec fn expression_result_view(r: Result<Expression, FoldError>) -> Result<
    ExpressionView,
    FoldErrorView,
> {
    match r {
        Ok(e) => Ok(e@),
        Err(e) => Err(e@),
    }
}

/// Folds constant values within a value: integers and identifiers are
/// returned unchanged, a nested expression is folded recursively.
pub fn fold_value(value: &Value) -> (r: Result<Value, FoldError>)
    ensures
        value_result_view(r) == spec_fold_value(value@),
    decreases value,
{
    match value {
        Value::Integer(n) => Ok(Value::Integer(*n)),
        Value::Identifier(name) => Ok(Value::Identifier(name.clone())),
        Value::Expression(expr) => match fold_expression(&**expr) {
            Ok(folded_expr) => match folded_expr {
                Expression::Value(box_val) => Ok(*box_val),
                _ => Ok(Value::Expression(Box::new(folded_expr))),
            },
            Err(e) => Err(e),
        },
    }
}

/// Recursively folds constant sub-expressions within an expression,
/// producing an expression at least as folded as the input, or the first
/// error met during the descent.
pub fn fold_expression(expression: &Expression) -> (r: Result<Expression, FoldError>)
    ensures
        expression_result_view(r) == spec_fold_expression(expression@),
    decreases expression,
{
    match expression {
        Expression::Binary { left, operator, right } => {
            let folded_left = match fold_value(left) {
                Ok(v) => v,
                Err(e) => {
                    return Err(e);
                },
            };
            // The right operand is folded unconditionally, so an error
            // buried in it surfaces even under an unfoldable left operand.
            let folded_right = match fold_expression(&**right) {
                Ok(fr) => fr,
                Err(e) => {
                    return Err(e);
                },
            };
            proof {
                reveal_with_fuel(crate::ast::view_value, 3);
                reveal_with_fuel(crate::ast::view_expression, 3);
            }
            match (folded_left, folded_right) {
                (Value::Integer(left_val), Expression::Value(right_value)) => match *right_value {
                    Value::Integer(right_val) => {
                        let result = match operator {
                            Operator::Add => match left_val.checked_add(right_val) {
                                Some(n) => n,
                                None => {
                                    return Err(FoldError::Overflow);
                                },
                            },
                            Operator::Subtract => match left_val.checked_sub(right_val) {
                                Some(n) => n,
                                None => {
                                    return Err(FoldError::Underflow);
                                },
                            },
                            Operator::Multiply => match left_val.checked_mul(right_val) {
                                Some(n) => n,
                                None => {
                                    return Err(FoldError::Overflow);
                                },
                            },
                            Operator::Divide => {
                                if right_val == 0 {
                                    return Err(FoldError::DivisionByZero);
                                }
                                left_val / right_val
                            },
                        };
                        Ok(Expression::Value(Box::new(Value::Integer(result))))
                    },
                    not_integer => Err(FoldError::TypeMismatch {
                        expected: String::from_str("Integer"),
                        found: value_debug_string(&not_integer),
                    }),
                },
                (other_left, other_right) => Ok(Expression::Binary {
                    left: other_left,
                    operator: *operator,
                    right: Box::new(other_right),
                }),
            }
        },
        Expression::Value(value) => match fold_value(&**value) {
            Ok(folded) => Ok(Expression::Value(Box::new(folded))),
            Err(e) => Err(e),
        },
    }
}

/// Performs constant folding on the given program, statement by statement.
/// Every statement is visited regardless of earlier failures: a statement
/// whose fold succeeds has its expression replaced by the folded form, a
/// statement whose fold fails keeps its original expression, and the errors
/// are collected in statement order. Statement order and names, and the
/// program's own name and inputs, are never changed.
pub fn fold_constants(program: &mut Program) -> (r: Result<(), Vec<FoldError>>)
    ensures
        final(program)@.name == old(program)@.name,
        final(program)@.inputs == old(program)@.inputs,
        final(program)@.statements.len() == old(program)@.statements.len(),
        forall|i: int|
            0 <= i < old(program)@.statements.len() ==> final(program)@.statements[i]
                == spec_fold_statement(old(program)@.statements[i]),
        match r {
            Ok(_) => spec_statement_errors(old(program)@.statements).len() == 0,
            Err(errors) => errors@.map_values(|e: FoldError| e@) == spec_statement_errors(
                old(program)@.statements,
            ) && errors@.len() > 0,
        },
{
    let ghost old_statements = program@.statements;
    let mut errors: Vec<FoldError> = Vec::new();
    let n = program.statements.len();
    let mut i: usize = 0;
    while i < n
        invariant
            i <= n,
            n == program.statements@.len(),
            n == old_statements.len(),
            old_statements == old(program)@.statements,
            program@.name == old(program)@.name,
            program@.inputs == old(program)@.inputs,
            forall|j: int|
                0 <= j < i ==> program@.statements[j] == spec_fold_statement(old_statements[j]),
            forall|j: int| i <= j < n ==> program@.statements[j] == old_statements[j],
            errors@.map_values(|e: FoldError| e@) == spec_statement_errors(
                old_statements.take(i as int),
            ),
        decreases n - i,
    {
        let ghost stmts_before = program@.statements;
        let folded = match &program.statements[i] {
            Statement::Assign { expression, .. } => fold_expression(expression),
        };
        match folded {
            Ok(folded_expr) => {
                let name = match &program.statements[i] {
                    Statement::Assign { name, .. } => name.clone(),
                };
                program.statements[i] = Statement::Assign { name, expression: folded_expr };
                proof {
                    assert(program@.statements[i as int] =~~= spec_fold_statement(
                        old_statements[i as int],
                    ));
                    assert(program@.statements =~= stmts_before.update(
                        i as int,
                        spec_fold_statement(old_statements[i as int]),
                    ));
                }
            },
            Err(e) => {
                errors.push(e);
                proof {
                    assert(spec_fold_statement(old_statements[i as int]) == old_statements[
                        i as int
                    ]);
                    assert(program@.statements =~= stmts_before.update(
                        i as int,
                        spec_fold_statement(old_statements[i as int]),
                    ));
                }
            },
        }
        proof {
            assert(old_statements.take(i + 1).drop_last() =~= old_statements.take(i as int));
            assert(old_statements.take(i + 1).last() == old_statements[i as int]);
            assert(errors@.map_values(|e: FoldError| e@) =~= spec_statement_errors(
                old_statements.take(i + 1),
            ));
        }
        i += 1;
    }
    proof {
        assert(old_statements.take(n as int) =~= old_statements);
    }
    if errors.is_empty() {
        Ok(())
    } else {
        Err(errors)
    }
}

proof fn lemma_fold_value_all_literals(v: ValueView)
    requires
        !value_has_identifier(v),
    ensures
        spec_fold_value(v) is Ok ==> spec_fold_value(v)->Ok_0 is Integer,
    decreases v,
{
    reveal_with_fuel(spec_fold_value, 2);
    reveal_with_fuel(spec_fold_expression, 2);
    reveal_with_fuel(value_has_identifier, 2);
    reveal_with_fuel(expression_has_identifier, 2);
    match v {
        ValueView::Integer(_) => {},
        ValueView::Identifier(_) => {},
        ValueView::Expression(e) => {
            lemma_fold_expression_all_literals(*e);
        },
    }
}

proof fn lemma_fold_expression_all_literals(e: ExpressionView)
    requires
        !expression_has_identifier(e),
    ensures
        spec_fold_expression(e) is Ok ==> expression_is_literal(spec_fold_expression(e)->Ok_0),
    decreases e,
{
    reveal_with_fuel(spec_fold_value, 2);
    reveal_with_fuel(spec_fold_expression, 2);
    reveal_with_fuel(value_has_identifier, 2);
    reveal_with_fuel(expression_has_identifier, 2);
    match e {
        ExpressionView::Value(v) => {
            lemma_fold_value_all_literals(*v);
        },
        ExpressionView::Binary { left, operator, right } => {
            lemma_fold_value_all_literals(left);
            lemma_fold_expression_all_literals(*right);
        },
    }
}

/// Law: idempotence after a full fold. An expression without identifiers
/// that folds successfully folds to a single integer literal, and folding
/// that result again gives it back unchanged: one fold reaches a fixed
/// point.
pub proof fn lemma_fold_idempotent(e: ExpressionView)
    requires
        !expression_has_identifier(e),
        spec_fold_expression(e) is Ok,
    ensures
        expression_is_literal(spec_fold_expression(e)->Ok_0),
        spec_fold_expression(spec_fold_expression(e)->Ok_0) == spec_fold_expression(e),
{
    reveal_with_fuel(spec_fold_value, 3);
    reveal_with_fuel(spec_fold_expression, 3);
    lemma_fold_expression_all_literals(e);
    let f = spec_fold_expression(e)->Ok_0;
    match f {
        ExpressionView::Value(b) => {
            assert(spec_fold_value(*b) == Ok::<ValueView, FoldErrorView>(*b));
            assert(spec_fold_expression(f) is Ok);
            assert(spec_fold_expression(f)->Ok_0 =~~= f);
        },
        _ => {
            assert(false);
        },
    }
}

/// Law: a statement keeps its name through folding, whether the fold of its
/// expression succeeds or fails; together with the statement-by-statement
/// contract of [`fold_constants`], statement order is always preserved.
pub proof fn lemma_fold_statement_keeps_name(s: StatementView)
    ensures
        spec_fold_statement(s).name == s.name,
{
}

/// Law: partial-fold non-corruption. A statement whose fold fails is left
/// exactly the tree it was before the attempt.
pub proof fn lemma_failed_statement_unchanged(s: StatementView)
    requires
        spec_fold_expression(s.expression) is Err,
    ensures
        spec_fold_statement(s) == s,
{
}

/// Law: arithmetic exactness over the full 8-bit unsigned domain. For all
/// `a`, `b` in `[0, 255]`: addition and multiplication yield their exact
/// mathematical result when it fits and fail with overflow otherwise;
/// subtraction yields the exact difference when `a >= b` and fails with
/// underflow otherwise; division by zero fails, and any other division
/// yields the floor quotient.
pub proof fn lemma_arithmetic_exact(a: u8, b: u8)
    ensures
        a + b <= 255 ==> spec_eval_binary(Operator::Add, a, b) == Ok::<u8, FoldErrorView>(
            (a + b) as u8,
        ),
        a + b > 255 ==> spec_eval_binary(Operator::Add, a, b) == Err::<u8, FoldErrorView>(
            FoldErrorView::Overflow,
        ),
        a >= b ==> spec_eval_binary(Operator::Subtract, a, b) == Ok::<u8, FoldErrorView>(
            (a - b) as u8,
        ),
        a < b ==> spec_eval_binary(Operator::Subtract, a, b) == Err::<u8, FoldErrorView>(
            FoldErrorView::Underflow,
        ),
        a * b <= 255 ==> spec_eval_binary(Operator::Multiply, a, b) == Ok::<u8, FoldErrorView>(
            (a * b) as u8,
        ),
        a * b > 255 ==> spec_eval_binary(Operator::Multiply, a, b) == Err::<u8, FoldErrorView>(
            FoldErrorView::Overflow,
        ),
        b == 0 ==> spec_eval_binary(Operator::Divide, a, b) == Err::<u8, FoldErrorView>(
            FoldErrorView::DivisionByZero,
        ),
        b != 0 ==> spec_eval_binary(Operator::Divide, a, b) == Ok::<u8, FoldErrorView>(a / b),
{
}

/// Folding a binary node whose operands are two integer literals yields
/// exactly the evaluated literal, or exactly the arithmetic error.
pub proof fn lemma_fold_literal_binary(a: u8, op: Operator, b: u8)
    ensures
        spec_fold_expression(
            (ExpressionView::Binary {
                left: ValueView::Integer(a),
                operator: op,
                right: Box::new(ExpressionView::Value(Box::new(ValueView::Integer(b)))),
            }),
        ) == match spec_eval_binary(op, a, b) {
            Ok(n) => Ok::<ExpressionView, FoldErrorView>(
                ExpressionView::Value(Box::new(ValueView::Integer(n))),
            ),
            Err(err) => Err::<ExpressionView, FoldErrorView>(err),
        },
{
    reveal_with_fuel(spec_fold_value, 3);
    reveal_with_fuel(spec_fold_expression, 3);
}

proof fn lemma_fold_value_preserves_identifiers(v: ValueView)
    ensures
        spec_fold_value(v) is Ok ==> value_has_identifier(spec_fold_value(v)->Ok_0)
            == value_has_identifier(v),
    decreases v,
{
    reveal_with_fuel(value_has_identifier, 3);
    reveal_with_fuel(expression_has_identifier, 3);
    match v {
        ValueView::Integer(_) => {},
        ValueView::Identifier(_) => {},
        ValueView::Expression(e) => {
            lemma_fold_expression_preserves_identifiers(*e);
        },
    }
}

proof fn lemma_fold_expression_preserves_identifiers(e: ExpressionView)
    ensures
        spec_fold_expression(e) is Ok ==> expression_has_identifier(spec_fold_expression(e)->Ok_0)
            == expression_has_identifier(e),
    decreases e,
{
    reveal_with_fuel(value_has_identifier, 3);
    reveal_with_fuel(expression_has_identifier, 3);
    match e {
        ExpressionView::Value(v) => {
            lemma_fold_value_preserves_identifiers(*v);
        },
        ExpressionView::Binary { left, operator, right } => {
            lemma_fold_value_preserves_identifiers(left);
            lemma_fold_expression_preserves_identifiers(*right);
        },
    }
}

/// Law: identifier pass-through. Folding never resolves an identifier: when
/// an expression containing one folds successfully, the result still
/// contains it and is never a single literal. (An identifier can still make
/// a fold fail: with an integer left operand, a right operand that collapses
/// to an identifier is a type mismatch, as for `1 + x`.)
pub proof fn lemma_identifier_pass_through(e: ExpressionView)
    requires
        expression_has_identifier(e),
        spec_fold_expression(e) is Ok,
    ensures
        expression_has_identifier(spec_fold_expression(e)->Ok_0),
        !expression_is_literal(spec_fold_expression(e)->Ok_0),
{
    reveal_with_fuel(value_has_identifier, 3);
    reveal_with_fuel(expression_has_identifier, 3);
    lemma_fold_expression_preserves_identifiers(e);
    let f = spec_fold_expression(e)->Ok_0;
    if expression_is_literal(f) {
        assert(!expression_has_identifier(f));
        assert(false);
    }
}

} // verus!
