//! The front end: a recursive-descent parser that turns source text into a
//! [`Program`] tree for the folding pass. A program is written
//! `function name(inputs) { statements }`, a statement
//! `let name = expression;`, and an expression is a value optionally followed
//! by an operator and another expression, so chained operators nest to the
//! right. A value is an integer literal with the `u8` suffix, an identifier,
//! or a parenthesized expression.
//!
//! The folding engine carries the pass's contracts; the parser is verified
//! to be panic-free and terminating, and returns `None` on text it does not
//! accept.

use vstd::prelude::*;
use vstd::string::{StrSliceExecFns, StringExecFns};

use crate::ast::{Expression, Operator, Parameter, Program, Statement, Value};

verus! {

/// Whitespace accepted between tokens.
pub open spec fn is_space_char(c: char) -> bool {
    c == ' ' || c == '\n' || c == '\t' || c == '\r'
}

/// Decimal digits.
pub open spec fn is_digit_char(c: char) -> bool {
    48 <= c as u32 <= 57
}

/// Characters that may start an identifier: letters and the underscore.
pub open spec fn is_identifier_start_char(c: char) -> bool {
    (97 <= c as u32 <= 122) || (65 <= c as u32 <= 90) || c == '_'
}

/// Characters that may continue an identifier.
pub open spec fn is_identifier_char(c: char) -> bool {
    is_identifier_start_char(c) || is_digit_char(c)
}

fn is_space_at(s: &str, j: usize, n: usize) -> (b: bool)
    requires
        n == s@.len(),
        j < n,
    ensures
        b == is_space_char(s@[j as int]),
{
    let c = s.get_char(j);
    c == ' ' || c == '\n' || c == '\t' || c == '\r'
}

fn is_digit_at(s: &str, j: usize, n: usize) -> (b: bool)
    requires
        n == s@.len(),
        j < n,
    ensures
        b == is_digit_char(s@[j as int]),
{
    let u = s.get_char(j) as u32;
    48 <= u && u <= 57
}

fn is_identifier_start_at(s: &str, j: usize, n: usize) -> (b: bool)
    requires
        n == s@.len(),
        j < n,
    ensures
        b == is_identifier_start_char(s@[j as int]),
{
    let c = s.get_char(j);
    let u = c as u32;
    (97 <= u && u <= 122) || (65 <= u && u <= 90) || c == '_'
}

fn is_identifier_at(s: &str, j: usize, n: usize) -> (b: bool)
    requires
        n == s@.len(),
        j < n,
    ensures
        b == is_identifier_char(s@[j as int]),
{
    let c = s.get_char(j);
    let u = c as u32;
    (97 <= u && u <= 122) || (65 <= u && u <= 90) || c == '_' || (48 <= u && u <= 57)
}

fn is_char_at(s: &str, j: usize, n: usize, c: char) -> (b: bool)
    requires
        n == s@.len(),
        j < n,
    ensures
        b == (s@[j as int] == c),
{
    s.get_char(j) == c
}

fn skip_whitespace(s: &str, i: usize, n: usize) -> (j: usize)
    requires
        n == s@.len(),
        i <= n,
    ensures
        i <= j <= n,
{
    let mut j = i;
    while j < n && is_space_at(s, j, n)
        invariant
            n == s@.len(),
            i <= j <= n,
        decreases n - j,
    {
        j += 1;
    }
    j
}

/// Matches the exact characters of `lit` at position `i`.
fn match_literal(s: &str, i: usize, n: usize, lit: &str) -> (r: Option<usize>)
    requires
        n == s@.len(),
        i <= n,
    ensures
        r matches Some(j) ==> i <= j <= n && j - i == lit@.len(),
{
    let m = lit.unicode_len();
    if m > n - i {
        return None;
    }
    let mut k: usize = 0;
    while k < m
        invariant
            n == s@.len(),
            m == lit@.len(),
            i <= n,
            m <= n - i,
            k <= m,
        decreases m - k,
    {
        if s.get_char(i + k) != lit.get_char(k) {
            return None;
        }
        k += 1;
    }
    Some(i + m)
}

/// Parses an identifier: a letter or underscore followed by letters, digits
/// and underscores.
fn parse_identifier(s: &str, i: usize, n: usize) -> (r: Option<(usize, String)>)
    requires
        n == s@.len(),
        i <= n,
    ensures
        r matches Some(p) ==> i < p.0 <= n,
{
    if i >= n || !is_identifier_start_at(s, i, n) {
        return None;
    }
    let mut j = i + 1;
    while j < n && is_identifier_at(s, j, n)
        invariant
            n == s@.len(),
            i < j <= n,
        decreases n - j,
    {
        j += 1;
    }
    let sub = s.substring_char(i, j);
    Some((j, String::from_str(sub)))
}

/// Parses an integer literal: decimal digits followed by the `u8` suffix.
/// A literal above 255 does not parse.
fn parse_integer(s: &str, i: usize, n: usize) -> (r: Option<(usize, u8)>)
    requires
        n == s@.len(),
        i <= n,
    ensures
        r matches Some(p) ==> i < p.0 <= n,
{
    let mut j = i;
    let mut acc: u32 = 0;
    while j < n && is_digit_at(s, j, n)
        invariant
            n == s@.len(),
            i <= j <= n,
            acc <= 255,
        decreases n - j,
    {
        let d = s.get_char(j) as u32 - 48;
        acc = acc * 10 + d;
        if acc > 255 {
            return None;
        }
        j += 1;
    }
    if j == i {
        return None;
    }
    if j < n && is_char_at(s, j, n, 'u') && j + 1 < n && is_char_at(s, j + 1, n, '8') {
        Some((j + 2, acc as u8))
    } else {
        None
    }
}

/// Parses a value: an integer literal, an identifier, or a parenthesized
/// expression.
fn parse_value(s: &str, i: usize, n: usize) -> (r: Option<(usize, Value)>)
    requires
        n == s@.len(),
        i <= n,
    ensures
        r matches Some(p) ==> i < p.0 <= n,
    decreases n - i, 0int,
{
    if i >= n {
        return None;
    }
    if is_char_at(s, i, n, '(') {
        let j = skip_whitespace(s, i + 1, n);
        let (k, inner) = match parse_expression(s, j, n) {
            Some(p) => p,
            None => {
                return None;
            },
        };
        let k = skip_whitespace(s, k, n);
        if k < n && is_char_at(s, k, n, ')') {
            Some((k + 1, Value::Expression(Box::new(inner))))
        } else {
            None
        }
    } else if is_digit_at(s, i, n) {
        match parse_integer(s, i, n) {
            Some((j, value)) => Some((j, Value::Integer(value))),
            None => None,
        }
    } else if is_identifier_start_at(s, i, n) {
        match parse_identifier(s, i, n) {
            Some((j, name)) => Some((j, Value::Identifier(name))),
            None => None,
        }
    } else {
        None
    }
}

/// Parses an expression: a value, optionally followed by an operator and a
/// full expression on the right.
fn parse_expression(s: &str, i: usize, n: usize) -> (r: Option<(usize, Expression)>)
    requires
        n == s@.len(),
        i <= n,
    ensures
        r matches Some(p) ==> i < p.0 <= n,
    decreases n - i, 1int,
{
    let (j, left) = match parse_value(s, i, n) {
        Some(p) => p,
        None => {
            return None;
        },
    };
    let j2 = skip_whitespace(s, j, n);
    if j2 < n {
        let operator = if is_char_at(s, j2, n, '+') {
            Some(Operator::Add)
        } else if is_char_at(s, j2, n, '-') {
            Some(Operator::Subtract)
        } else if is_char_at(s, j2, n, '*') {
            Some(Operator::Multiply)
        } else if is_char_at(s, j2, n, '/') {
            Some(Operator::Divide)
        } else {
            None
        };
        if let Some(operator) = operator {
            let k = skip_whitespace(s, j2 + 1, n);
            let (m, right) = match parse_expression(s, k, n) {
                Some(p) => p,
                None => {
                    return None;
                },
            };
            return Some((m, Expression::Binary { left, operator, right: Box::new(right) }));
        }
    }
    Some((j, Expression::Value(Box::new(left))))
}

/// Parses one statement: `let name = expression;`.
fn parse_statement(s: &str, i: usize, n: usize) -> (r: Option<(usize, Statement)>)
    requires
        n == s@.len(),
        i <= n,
    ensures
        r matches Some(p) ==> i < p.0 <= n,
{
    let j = match match_literal(s, i, n, "let") {
        Some(j) => j,
        None => {
            return None;
        },
    };
    if j >= n || !is_space_at(s, j, n) {
        return None;
    }
    let j = skip_whitespace(s, j, n);
    let (j, name) = match parse_identifier(s, j, n) {
        Some(p) => p,
        None => {
            return None;
        },
    };
    let j = skip_whitespace(s, j, n);
    if j >= n || !is_char_at(s, j, n, '=') {
        return None;
    }
    let j = skip_whitespace(s, j + 1, n);
    let (j, expression) = match parse_expression(s, j, n) {
        Some(p) => p,
        None => {
            return None;
        },
    };
    let j = skip_whitespace(s, j, n);
    if j >= n || !is_char_at(s, j, n, ';') {
        return None;
    }
    Some((j + 1, Statement::Assign { name, expression }))
}

/// Parses the comma-separated typed inputs after the first one's start, up
/// to and including the closing parenthesis.
fn parse_parameter_list(s: &str, i: usize, n: usize) -> (r: Option<(usize, Vec<Parameter>)>)
    requires
        n == s@.len(),
        i <= n,
    ensures
        r matches Some(p) ==> i < p.0 <= n,
    decreases n - i,
{
    let (j, name) = match parse_identifier(s, i, n) {
        Some(p) => p,
        None => {
            return None;
        },
    };
    let j = skip_whitespace(s, j, n);
    if j >= n || !is_char_at(s, j, n, ':') {
        return None;
    }
    let j = skip_whitespace(s, j + 1, n);
    let (j, ty) = match parse_identifier(s, j, n) {
        Some(p) => p,
        None => {
            return None;
        },
    };
    let j = skip_whitespace(s, j, n);
    if j < n && is_char_at(s, j, n, ',') {
        let k = skip_whitespace(s, j + 1, n);
        let (m, rest) = match parse_parameter_list(s, k, n) {
            Some(p) => p,
            None => {
                return None;
            },
        };
        let mut rest = rest;
        let mut inputs: Vec<Parameter> = Vec::new();
        inputs.push(Parameter { name, ty });
        inputs.append(&mut rest);
        Some((m, inputs))
    } else if j < n && is_char_at(s, j, n, ')') {
        let mut inputs: Vec<Parameter> = Vec::new();
        inputs.push(Parameter { name, ty });
        Some((j + 1, inputs))
    } else {
        None
    }
}

/// Parses the typed inputs of a program, up to and including the closing
/// parenthesis.
fn parse_parameters(s: &str, i: usize, n: usize) -> (r: Option<(usize, Vec<Parameter>)>)
    requires
        n == s@.len(),
        i <= n,
    ensures
        r matches Some(p) ==> i < p.0 <= n,
{
    let j = skip_whitespace(s, i, n);
    if j < n && is_char_at(s, j, n, ')') {
        Some((j + 1, Vec::new()))
    } else {
        parse_parameter_list(s, j, n)
    }
}

/// Parses source text into a program tree, or returns `None` when the text
/// does not follow the grammar.
pub fn parse(input: &str) -> (r: Option<Program>)
{
    let n = input.unicode_len();
    let i = skip_whitespace(input, 0, n);
    let i = match match_literal(input, i, n, "function") {
        Some(j) => j,
        None => {
            return None;
        },
    };
    if i >= n || !is_space_at(input, i, n) {
        return None;
    }
    let i = skip_whitespace(input, i, n);
    let (i, name) = match parse_identifier(input, i, n) {
        Some(p) => p,
        None => {
            return None;
        },
    };
    let i = skip_whitespace(input, i, n);
    if i >= n || !is_char_at(input, i, n, '(') {
        return None;
    }
    let (i, inputs) = match parse_parameters(input, i + 1, n) {
        Some(p) => p,
        None => {
            return None;
        },
    };
    let i = skip_whitespace(input, i, n);
    if i >= n || !is_char_at(input, i, n, '{') {
        return None;
    }
    let mut i = skip_whitespace(input, i + 1, n);
    let mut statements: Vec<Statement> = Vec::new();
    while i < n && !is_char_at(input, i, n, '}')
        invariant
            n == input@.len(),
            i <= n,
        decreases n - i,
    {
        let (j, statement) = match parse_statement(input, i, n) {
            Some(p) => p,
            None => {
                return None;
            },
        };
        statements.push(statement);
        i = skip_whitespace(input, j, n);
    }
    if i >= n {
        return None;
    }
    let i = skip_whitespace(input, i + 1, n);
    if i != n {
        return None;
    }
    Some(Program { name, inputs, statements })
}

} // verus!
