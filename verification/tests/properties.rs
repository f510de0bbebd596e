use leo_fold::ast::{Expression, Operator, Statement, Value};
use leo_fold::constant_folding::{fold_constants, fold_expression};
use leo_fold::error::FoldError;
use leo_fold::parser::parse;
use leo_fold::render::{expression_debug_string, program_source, value_debug_string};

fn literal(n: u8) -> Expression {
    Expression::Value(Box::new(Value::Integer(n)))
}

fn binary(left: Value, operator: Operator, right: Expression) -> Expression {
    Expression::Binary {
        left,
        operator,
        right: Box::new(right),
    }
}

#[test]
fn folds_addition_of_two_literals() {
    let e = binary(Value::Integer(1), Operator::Add, literal(2));
    assert_eq!(fold_expression(&e), Ok(literal(3)));
}

#[test]
fn folds_right_heavy_chain() {
    // 7 + 3 * 2, nested to the right as the grammar parses it.
    let e = binary(
        Value::Integer(7),
        Operator::Add,
        binary(Value::Integer(3), Operator::Multiply, literal(2)),
    );
    assert_eq!(fold_expression(&e), Ok(literal(13)));
}

#[test]
fn folds_parenthesized_operands() {
    // (1 + 2) * (5 - 4)
    let e = binary(
        Value::Expression(Box::new(binary(Value::Integer(1), Operator::Add, literal(2)))),
        Operator::Multiply,
        Expression::Value(Box::new(Value::Expression(Box::new(binary(
            Value::Integer(5),
            Operator::Subtract,
            literal(4),
        ))))),
    );
    assert_eq!(fold_expression(&e), Ok(literal(3)));
}

#[test]
fn folds_division_to_floor_quotient() {
    let e = binary(Value::Integer(7), Operator::Divide, literal(2));
    assert_eq!(fold_expression(&e), Ok(literal(3)));
}

#[test]
fn division_by_zero_fails_and_retains_expression() {
    let mut program = parse("function main() {\n    let a = 10u8 / 0u8;\n}\n").unwrap();
    let result = fold_constants(&mut program);
    assert_eq!(result, Err(vec![FoldError::DivisionByZero]));
    let Statement::Assign { name, expression } = &program.statements[0];
    assert_eq!(name, "a");
    assert_eq!(*expression, binary(Value::Integer(10), Operator::Divide, literal(0)));
}

#[test]
fn addition_overflow_fails() {
    let e = binary(Value::Integer(255), Operator::Add, literal(1));
    assert_eq!(fold_expression(&e), Err(FoldError::Overflow));
}

#[test]
fn multiplication_overflow_fails() {
    let e = binary(Value::Integer(128), Operator::Multiply, literal(2));
    assert_eq!(fold_expression(&e), Err(FoldError::Overflow));
}

#[test]
fn subtraction_underflow_fails() {
    let e = binary(Value::Integer(0), Operator::Subtract, literal(1));
    assert_eq!(fold_expression(&e), Err(FoldError::Underflow));
}

#[test]
fn error_in_right_operand_surfaces_under_unfoldable_left() {
    // 5 * (1 / 0): the right operand is folded unconditionally.
    let e = binary(
        Value::Integer(5),
        Operator::Multiply,
        Expression::Value(Box::new(Value::Expression(Box::new(binary(
            Value::Integer(1),
            Operator::Divide,
            literal(0),
        ))))),
    );
    assert_eq!(fold_expression(&e), Err(FoldError::DivisionByZero));
}

#[test]
fn failing_statement_leaves_neighbours_folded() {
    // Three statements; the second fails, the first and third still fold.
    let input = "function main() {
    let a = 1u8 + 2u8;
    let b = 10u8 / 0u8;
    let c = 2u8 * 3u8;
}\n";
    let mut program = parse(input).unwrap();
    let result = fold_constants(&mut program);
    assert_eq!(result, Err(vec![FoldError::DivisionByZero]));
    assert_eq!(program.statements.len(), 3);

    let Statement::Assign { name, expression } = &program.statements[0];
    assert_eq!(name, "a");
    assert_eq!(*expression, literal(3));

    let Statement::Assign { name, expression } = &program.statements[1];
    assert_eq!(name, "b");
    assert_eq!(*expression, binary(Value::Integer(10), Operator::Divide, literal(0)));

    let Statement::Assign { name, expression } = &program.statements[2];
    assert_eq!(name, "c");
    assert_eq!(*expression, literal(6));
}

#[test]
fn folding_twice_equals_folding_once() {
    // (1 + 2) * 3 holds no identifiers, so one fold reaches a fixed point.
    let e = binary(
        Value::Expression(Box::new(binary(Value::Integer(1), Operator::Add, literal(2)))),
        Operator::Multiply,
        literal(3),
    );
    let once = fold_expression(&e).unwrap();
    assert_eq!(once, literal(9));
    let twice = fold_expression(&once).unwrap();
    assert_eq!(twice, once);
}

#[test]
fn identifier_left_operand_passes_through() {
    // x + 1 keeps its shape: the identifier is never resolved or folded.
    let e = binary(
        Value::Identifier(String::from("x")),
        Operator::Add,
        literal(1),
    );
    let folded = fold_expression(&e).unwrap();
    assert_eq!(folded, binary(Value::Identifier(String::from("x")), Operator::Add, literal(1)));
}

#[test]
fn identifier_inside_right_binary_passes_through() {
    // 1 + x * 2 partially folds: the right binary node is rebuilt, and the
    // whole expression stays a binary node.
    let e = binary(
        Value::Integer(1),
        Operator::Add,
        binary(Value::Identifier(String::from("x")), Operator::Multiply, literal(2)),
    );
    let folded = fold_expression(&e).unwrap();
    assert_eq!(
        folded,
        binary(
            Value::Integer(1),
            Operator::Add,
            binary(Value::Identifier(String::from("x")), Operator::Multiply, literal(2)),
        )
    );
}

#[test]
fn integer_left_with_identifier_right_is_type_mismatch() {
    // 1 + x: with an integer left operand, a right operand that collapses to
    // an identifier raises the type-mismatch error.
    let e = binary(
        Value::Integer(1),
        Operator::Add,
        Expression::Value(Box::new(Value::Identifier(String::from("x")))),
    );
    assert_eq!(
        fold_expression(&e),
        Err(FoldError::TypeMismatch {
            expected: String::from("Integer"),
            found: String::from("Identifier(\"x\")"),
        })
    );
}

#[test]
fn error_messages_render_exactly() {
    assert_eq!(FoldError::Overflow.message(), "Overflow occurred during operation");
    assert_eq!(FoldError::Underflow.message(), "Underflow occurred during operation");
    assert_eq!(FoldError::DivisionByZero.message(), "Division by zero");
    assert_eq!(
        FoldError::InvalidOperation(String::from("no such op")).message(),
        "Invalid operation: no such op"
    );
    assert_eq!(
        FoldError::UnsupportedExpression(literal(7)).message(),
        "Unsupported expression: Value(Integer(7))"
    );
    assert_eq!(
        FoldError::TypeMismatch {
            expected: String::from("Integer"),
            found: String::from("Identifier(\"x\")"),
        }
        .message(),
        "Type mismatch: expected Integer, but found Identifier(\"x\")"
    );
}

#[test]
fn string_failures_wrap_as_invalid_operation() {
    let e = FoldError::from(String::from("bad token"));
    assert_eq!(e, FoldError::InvalidOperation(String::from("bad token")));
}

#[test]
fn debug_rendering_matches_tree_shape() {
    assert_eq!(value_debug_string(&Value::Integer(255)), "Integer(255)");
    assert_eq!(
        value_debug_string(&Value::Identifier(String::from("total"))),
        "Identifier(\"total\")"
    );
    let e = binary(Value::Integer(1), Operator::Add, literal(2));
    assert_eq!(
        expression_debug_string(&e),
        "Binary { left: Integer(1), operator: Add, right: Value(Integer(2)) }"
    );
}

#[test]
fn parse_then_render_reproduces_source() {
    let input = "function main() {\n    let a = 1u8 + 2u8;\n}\n";
    let program = parse(input).unwrap();
    assert_eq!(program_source(&program), input);
}

#[test]
fn renders_identifiers_parentheses_and_inputs() {
    let input = "function main(a: u8, b: u8) {\n    let c = (a + b) * 2u8;\n}\n";
    let mut program = parse(input).unwrap();
    assert_eq!(program.inputs.len(), 2);
    assert_eq!(program.inputs[0].name, "a");
    assert_eq!(program.inputs[0].ty, "u8");
    // The identifiers prevent folding, but nothing fails and nothing moves.
    fold_constants(&mut program).unwrap();
    assert_eq!(program_source(&program), input);
}

#[test]
fn parse_rejects_malformed_programs() {
    assert!(parse("").is_none());
    assert!(parse("function main() {").is_none());
    assert!(parse("function main() { let a = 1u8 }").is_none());
    assert!(parse("function main() { let a = 1; }").is_none());
    assert!(parse("function main() { let a = 256u8; }").is_none());
    assert!(parse("function main() { let a = 1u8; } trailing").is_none());
}

#[test]
fn statement_order_is_preserved_on_success() {
    let input = "function main() {
    let first = 1u8 + 1u8;
    let second = 2u8 + 2u8;
    let third = 3u8 + 3u8;
}\n";
    let mut program = parse(input).unwrap();
    fold_constants(&mut program).unwrap();
    let names: Vec<&str> = program
        .statements
        .iter()
        .map(|s| {
            let Statement::Assign { name, .. } = s;
            name.as_str()
        })
        .collect();
    assert_eq!(names, vec!["first", "second", "third"]);
}
