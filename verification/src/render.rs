//! Rendering of trees back to text: the debug form that error reports embed,
//! and the source form of a program. Every renderer is specified by a spec
//! function over the tree's view and proved to produce exactly that text.

use vstd::prelude::*;
use vstd::string::StringExecFns;

use crate::ast::{
    Expression, ExpressionView, Operator, Parameter, ParameterView, Program, ProgramView,
    Statement, StatementView, Value, ValueView,
};

verus! {

/// The character that writes a single decimal digit.
pub open spec fn spec_digit_char(d: u8) -> char {
    if d == 0 {
        '0'
    } else if d == 1 {
        '1'
    } else if d == 2 {
        '2'
    } else if d == 3 {
        '3'
    } else if d == 4 {
        '4'
    } else if d == 5 {
        '5'
    } else if d == 6 {
        '6'
    } else if d == 7 {
        '7'
    } else if d == 8 {
        '8'
    } else {
        '9'
    }
}

/// The decimal text of an integer literal, without leading zeros.
pub open spec fn spec_u8_string(n: u8) -> Seq<char> {
    if n >= 100 {
        seq![spec_digit_char(n / 100), spec_digit_char((n / 10) % 10), spec_digit_char(n % 10)]
    } else if n >= 10 {
        seq![spec_digit_char(n / 10), spec_digit_char(n % 10)]
    } else {
        seq![spec_digit_char(n)]
    }
}

fn digit_str(d: u8) -> (r: &'static str)
    requires
        d < 10,
    ensures
        r@ == seq![spec_digit_char(d)],
{
    proof {
        reveal_strlit("0");
        reveal_strlit("1");
        reveal_strlit("2");
        reveal_strlit("3");
        reveal_strlit("4");
        reveal_strlit("5");
        reveal_strlit("6");
        reveal_strlit("7");
        reveal_strlit("8");
        reveal_strlit("9");
    }
    let r = if d == 0 {
        "0"
    } else if d == 1 {
        "1"
    } else if d == 2 {
        "2"
    } else if d == 3 {
        "3"
    } else if d == 4 {
        "4"
    } else if d == 5 {
        "5"
    } else if d == 6 {
        "6"
    } else if d == 7 {
        "7"
    } else if d == 8 {
        "8"
    } else {
        "9"
    };
    proof {
        assert(r@ =~= seq![spec_digit_char(d)]);
    }
    r
}

/// Writes an integer in decimal, e.g. `255`.
pub fn u8_string(n: u8) -> (r: String)
    ensures
        r@ == spec_u8_string(n),
{
    let mut s = String::new();
    if n >= 100 {
        s.append(digit_str(n / 100));
        s.append(digit_str((n / 10) % 10));
        s.append(digit_str(n % 10));
    } else if n >= 10 {
        s.append(digit_str(n / 10));
        s.append(digit_str(n % 10));
    } else {
        s.append(digit_str(n));
    }
    proof {
        assert(s@ =~= spec_u8_string(n));
    }
    s
}

/// The debug name of an operator.
pub open spec fn spec_operator_debug(op: Operator) -> Seq<char> {
    match op {
        Operator::Add => "Add"@,
        Operator::Subtract => "Subtract"@,
        Operator::Multiply => "Multiply"@,
        Operator::Divide => "Divide"@,
    }
}

pub fn operator_debug_str(op: &Operator) -> (r: &'static str)
    ensures
        r@ == spec_operator_debug(*op),
{
    match op {
        Operator::Add => "Add",
        Operator::Subtract => "Subtract",
        Operator::Multiply => "Multiply",
        Operator::Divide => "Divide",
    }
}

/// The debug form of a value, e.g. `Integer(3)` or `Identifier("x")`.
pub open spec fn spec_value_debug(v: ValueView) -> Seq<char>
    decreases v,
{
    match v {
        ValueView::Integer(n) => "Integer("@ + spec_u8_string(n) + ")"@,
        ValueView::Identifier(name) => "Identifier(\""@ + name + "\")"@,
        ValueView::Expression(e) => "Expression("@ + spec_expression_debug(*e) + ")"@,
    }
}

/// The debug form of an expression, e.g.
/// `Binary { left: Integer(1), operator: Add, right: Value(Integer(2)) }`.
pub open spec fn spec_expression_debug(e: ExpressionView) -> Seq<char>
    decreases e,
{
    match e {
        ExpressionView::Value(v) => "Value("@ + spec_value_debug(*v) + ")"@,
        ExpressionView::Binary { left, operator, right } => "Binary { left: "@
            + spec_value_debug(left) + ", operator: "@ + spec_operator_debug(operator)
            + ", right: "@ + spec_expression_debug(*right) + " }"@,
    }
}

pub fn value_debug_string(value: &Value) -> (r: String)
    ensures
        r@ == spec_value_debug(value@),
    decreases value,
{
    match value {
        Value::Integer(n) => {
            let mut s = String::from_str("Integer(");
            let num = u8_string(*n);
            s.append(num.as_str());
            s.append(")");
            proof {
                assert(s@ =~= spec_value_debug(value@));
            }
            s
        },
        Value::Identifier(name) => {
            let mut s = String::from_str("Identifier(\"");
            s.append(name.as_str());
            s.append("\")");
            proof {
                assert(s@ =~= spec_value_debug(value@));
            }
            s
        },
        Value::Expression(e) => {
            let mut s = String::from_str("Expression(");
            let inner = expression_debug_string(&**e);
            s.append(inner.as_str());
            s.append(")");
            proof {
                assert(s@ =~= spec_value_debug(value@));
            }
            s
        },
    }
}

pub fn expression_debug_string(expression: &Expression) -> (r: String)
    ensures
        r@ == spec_expression_debug(expression@),
    decreases expression,
{
    match expression {
        Expression::Value(v) => {
            let mut s = String::from_str("Value(");
            let inner = value_debug_string(&**v);
            s.append(inner.as_str());
            s.append(")");
            proof {
                assert(s@ =~= spec_expression_debug(expression@));
            }
            s
        },
        Expression::Binary { left, operator, right } => {
            let mut s = String::from_str("Binary { left: ");
            let l = value_debug_string(left);
            s.append(l.as_str());
            s.append(", operator: ");
            s.append(operator_debug_str(operator));
            s.append(", right: ");
            let r = expression_debug_string(&**right);
            s.append(r.as_str());
            s.append(" }");
            proof {
                assert(s@ =~= spec_expression_debug(expression@));
            }
            s
        },
    }
}

/// The source symbol of an operator.
pub open spec fn spec_operator_symbol(op: Operator) -> Seq<char> {
    match op {
        Operator::Add => "+"@,
        Operator::Subtract => "-"@,
        Operator::Multiply => "*"@,
        Operator::Divide => "/"@,
    }
}

pub fn operator_symbol_str(op: &Operator) -> (r: &'static str)
    ensures
        r@ == spec_operator_symbol(*op),
{
    match op {
        Operator::Add => "+",
        Operator::Subtract => "-",
        Operator::Multiply => "*",
        Operator::Divide => "/",
    }
}

/// The source form of a value, e.g. `3u8`, `x`, or a parenthesized expression.
pub open spec fn spec_value_source(v: ValueView) -> Seq<char>
    decreases v,
{
    match v {
        ValueView::Integer(n) => spec_u8_string(n) + "u8"@,
        ValueView::Identifier(name) => name,
        ValueView::Expression(e) => "("@ + spec_expression_source(*e) + ")"@,
    }
}

/// The source form of an expression, with one space around each operator.
pub open spec fn spec_expression_source(e: ExpressionView) -> Seq<char>
    decreases e,
{
    match e {
        ExpressionView::Value(v) => spec_value_source(*v),
        ExpressionView::Binary { left, operator, right } => spec_value_source(left) + " "@
            + spec_operator_symbol(operator) + " "@ + spec_expression_source(*right),
    }
}

/// The source form of a statement: an indented `let` binding.
pub open spec fn spec_statement_source(s: StatementView) -> Seq<char> {
    "    let "@ + s.name + " = "@ + spec_expression_source(s.expression) + ";\n"@
}

/// The source form of a run of statements, in order.
pub open spec fn spec_statements_source(ss: Seq<StatementView>) -> Seq<char>
    decreases ss.len(),
{
    if ss.len() == 0 {
        Seq::empty()
    } else {
        spec_statements_source(ss.drop_last()) + spec_statement_source(ss.last())
    }
}

/// The source form of one typed input, e.g. `a: u8`.
pub open spec fn spec_parameter_source(p: ParameterView) -> Seq<char> {
    p.name + ": "@ + p.ty
}

/// The source form of an input list, comma-separated.
pub open spec fn spec_parameters_source(ps: Seq<ParameterView>) -> Seq<char>
    decreases ps.len(),
{
    if ps.len() == 0 {
        Seq::empty()
    } else if ps.len() == 1 {
        spec_parameter_source(ps[0])
    } else {
        spec_parameters_source(ps.drop_last()) + ", "@ + spec_parameter_source(ps.last())
    }
}

/// The source form of a whole program.
pub open spec fn spec_program_source(p: ProgramView) -> Seq<char> {
    "function "@ + p.name + "("@ + spec_parameters_source(p.inputs) + ") {\n"@
        + spec_statements_source(p.statements) + "}\n"@
}

pub fn value_source(value: &Value) -> (r: String)
    ensures
        r@ == spec_value_source(value@),
    decreases value,
{
    match value {
        Value::Integer(n) => {
            let mut s = u8_string(*n);
            s.append("u8");
            proof {
                assert(s@ =~= spec_value_source(value@));
            }
            s
        },
        Value::Identifier(name) => {
            let s = name.clone();
            s
        },
        Value::Expression(e) => {
            let mut s = String::from_str("(");
            let inner = expression_source(&**e);
            s.append(inner.as_str());
            s.append(")");
            proof {
                assert(s@ =~= spec_value_source(value@));
            }
            s
        },
    }
}

pub fn expression_source(expression: &Expression) -> (r: String)
    ensures
        r@ == spec_expression_source(expression@),
    decreases expression,
{
    match expression {
        Expression::Value(v) => value_source(&**v),
        Expression::Binary { left, operator, right } => {
            let mut s = value_source(left);
            s.append(" ");
            s.append(operator_symbol_str(operator));
            s.append(" ");
            let r = expression_source(&**right);
            s.append(r.as_str());
            proof {
                assert(s@ =~= spec_expression_source(expression@));
            }
            s
        },
    }
}

pub fn statement_source(statement: &Statement) -> (r: String)
    ensures
        r@ == spec_statement_source(statement@),
{
    match statement {
        Statement::Assign { name, expression } => {
            let mut s = String::from_str("    let ");
            s.append(name.as_str());
            s.append(" = ");
            let es = expression_source(expression);
            s.append(es.as_str());
            s.append(";\n");
            proof {
                assert(s@ =~= spec_statement_source(statement@));
            }
            s
        },
    }
}

/// Writes a program back as source text.
pub fn program_source(program: &Program) -> (r: String)
    ensures
        r@ == spec_program_source(program@),
{
    let mut out = String::from_str("function ");
    out.append(program.name.as_str());
    out.append("(");

    let mut i: usize = 0;
    while i < program.inputs.len()
        invariant
            i <= program.inputs@.len(),
            out@ == "function "@ + program@.name + "("@ + spec_parameters_source(
                program@.inputs.take(i as int),
            ),
        decreases program.inputs@.len() - i,
    {
        if i > 0 {
            out.append(", ");
        }
        let p = &program.inputs[i];
        out.append(p.name.as_str());
        out.append(": ");
        out.append(p.ty.as_str());
        proof {
            let ps = program@.inputs;
            assert(ps.take(i + 1).drop_last() =~= ps.take(i as int));
            assert(ps.take(i + 1).last() == ps[i as int]);
            assert(out@ =~= "function "@ + program@.name + "("@ + spec_parameters_source(
                ps.take(i + 1),
            ));
        }
        i += 1;
    }
    proof {
        assert(program@.inputs.take(program@.inputs.len() as int) =~= program@.inputs);
    }

    out.append(") {\n");

    let mut j: usize = 0;
    while j < program.statements.len()
        invariant
            j <= program.statements@.len(),
            out@ == "function "@ + program@.name + "("@ + spec_parameters_source(program@.inputs)
                + ") {\n"@ + spec_statements_source(program@.statements.take(j as int)),
        decreases program.statements@.len() - j,
    {
        let line = statement_source(&program.statements[j]);
        out.append(line.as_str());
        proof {
            let ss = program@.statements;
            assert(ss.take(j + 1).drop_last() =~= ss.take(j as int));
            assert(ss.take(j + 1).last() == ss[j as int]);
            assert(out@ =~= "function "@ + program@.name + "("@ + spec_parameters_source(
                program@.inputs,
            ) + ") {\n"@ + spec_statements_source(ss.take(j + 1)));
        }
        j += 1;
    }
    proof {
        assert(program@.statements.take(program@.statements.len() as int) =~= program@.statements);
    }

    out.append("}\n");
    proof {
        assert(out@ =~= spec_program_source(program@));
    }
    out
}

} // verus!
