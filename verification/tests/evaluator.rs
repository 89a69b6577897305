//! End-to-end tests of the evaluator through its public interface, with a
//! minimal stand-in for the external lexer/parser collaborator: it accepts
//! integer literals of the concrete syntax, written as a quote before the
//! digits.

use abilene_core::ast::{Atom, LanguageError, Node, Span, Value};
use abilene_core::context::Context;

const FUEL: u64 = 16;

fn at(node: Node) -> Atom {
    Atom { code: 7, span: Span { start: 1, end: 4 }, node }
}

fn num(i: i64) -> Atom {
    at(Node::Const(Value::Integer(i)))
}

fn txt(s: &str) -> Atom {
    at(Node::Const(Value::Text(String::from(s))))
}

fn tiny_parse(s: &str) -> Result<Atom, LanguageError> {
    let t = s.trim();
    let failed = LanguageError {
        code: 98,
        message: String::from("unsupported source"),
        span: Span { start: 0, end: t.len() },
    };
    match t.strip_prefix('\'') {
        Some(num) => match num.parse::<i64>() {
            Ok(i) => Ok(Atom {
                code: 99,
                span: Span { start: 0, end: t.len() },
                node: Node::Const(Value::Integer(i)),
            }),
            Err(_) => Err(failed),
        },
        None => Err(failed),
    }
}

fn expect_int(r: Result<Value, LanguageError>) -> i64 {
    match r {
        Ok(Value::Integer(i)) => i,
        other => panic!("expected an integer result, got {:?}", other),
    }
}

fn expect_text(r: Result<Value, LanguageError>) -> String {
    match r {
        Ok(Value::Text(s)) => s,
        other => panic!("expected a text result, got {:?}", other),
    }
}

fn expect_err(r: Result<Value, LanguageError>) -> LanguageError {
    match r {
        Err(e) => e,
        Ok(v) => panic!("expected an error, got {:?}", v),
    }
}

#[test]
fn add_integers_sum() {
    let mut ctx = Context::new();
    let r = ctx.exec(at(Node::Add(Box::new(num(2)), Box::new(num(40)))), &tiny_parse, FUEL);
    assert_eq!(expect_int(r), 42);
}

#[test]
fn add_texts_concat() {
    let mut ctx = Context::new();
    let r = ctx.exec(at(Node::Add(Box::new(txt("ab")), Box::new(txt("cd")))), &tiny_parse, FUEL);
    assert_eq!(expect_text(r), "abcd");
}

#[test]
fn add_int_text_type_error() {
    let mut ctx = Context::new();
    let r = ctx.exec(at(Node::Add(Box::new(num(1)), Box::new(txt("x")))), &tiny_parse, FUEL);
    assert_eq!(expect_err(r).message, "can't add string to int");
}

#[test]
fn add_text_int_type_error() {
    let mut ctx = Context::new();
    let r = ctx.exec(at(Node::Add(Box::new(txt("x")), Box::new(num(1)))), &tiny_parse, FUEL);
    assert_eq!(expect_err(r).message, "can't add int to string");
}

#[test]
fn sub_difference() {
    let mut ctx = Context::new();
    let r = ctx.exec(at(Node::Sub(Box::new(num(10)), Box::new(num(13)))), &tiny_parse, FUEL);
    assert_eq!(expect_int(r), -3);
}

#[test]
fn sub_type_errors() {
    let mut ctx = Context::new();
    let r = ctx.exec(at(Node::Sub(Box::new(num(1)), Box::new(txt("x")))), &tiny_parse, FUEL);
    assert_eq!(expect_err(r).message, "can't sub string from int");
    let r = ctx.exec(at(Node::Sub(Box::new(txt("x")), Box::new(num(1)))), &tiny_parse, FUEL);
    assert_eq!(expect_err(r).message, "can't sub from string");
}

#[test]
fn mul_product() {
    let mut ctx = Context::new();
    let r = ctx.exec(at(Node::Mul(Box::new(num(-6)), Box::new(num(7)))), &tiny_parse, FUEL);
    assert_eq!(expect_int(r), -42);
}

#[test]
fn mul_type_errors() {
    let mut ctx = Context::new();
    let r = ctx.exec(at(Node::Mul(Box::new(num(1)), Box::new(txt("x")))), &tiny_parse, FUEL);
    assert_eq!(expect_err(r).message, "can't mul int by string");
    let r = ctx.exec(at(Node::Mul(Box::new(txt("x")), Box::new(num(1)))), &tiny_parse, FUEL);
    assert_eq!(expect_err(r).message, "can't mul string");
}

#[test]
fn div_truncates_toward_zero() {
    let mut ctx = Context::new();
    let r = ctx.exec(at(Node::Div(Box::new(num(7)), Box::new(num(2)))), &tiny_parse, FUEL);
    assert_eq!(expect_int(r), 3);
    let r = ctx.exec(at(Node::Div(Box::new(num(-7)), Box::new(num(2)))), &tiny_parse, FUEL);
    assert_eq!(expect_int(r), -3);
    let r = ctx.exec(at(Node::Div(Box::new(num(7)), Box::new(num(-2)))), &tiny_parse, FUEL);
    assert_eq!(expect_int(r), -3);
}

#[test]
fn div_type_errors() {
    let mut ctx = Context::new();
    let r = ctx.exec(at(Node::Div(Box::new(num(1)), Box::new(txt("x")))), &tiny_parse, FUEL);
    assert_eq!(expect_err(r).message, "can't div int by string");
    let r = ctx.exec(at(Node::Div(Box::new(txt("x")), Box::new(num(1)))), &tiny_parse, FUEL);
    assert_eq!(expect_err(r).message, "can't div string");
}

#[test]
fn equal_compares_like_kinds() {
    let mut ctx = Context::new();
    let r = ctx.exec(at(Node::Equal(Box::new(num(3)), Box::new(num(3)))), &tiny_parse, FUEL);
    assert_eq!(expect_int(r), 1);
    let r = ctx.exec(at(Node::Equal(Box::new(num(3)), Box::new(num(4)))), &tiny_parse, FUEL);
    assert_eq!(expect_int(r), 0);
    let r = ctx.exec(at(Node::Equal(Box::new(txt("ab")), Box::new(txt("ab")))), &tiny_parse, FUEL);
    assert_eq!(expect_int(r), 1);
    let r = ctx.exec(at(Node::Equal(Box::new(txt("ab")), Box::new(txt("ac")))), &tiny_parse, FUEL);
    assert_eq!(expect_int(r), 0);
}

#[test]
fn equal_cross_type_errors() {
    let mut ctx = Context::new();
    let r = ctx.exec(at(Node::Equal(Box::new(num(1)), Box::new(txt("x")))), &tiny_parse, FUEL);
    assert_eq!(expect_err(r).message, "can't compare string to int");
    let r = ctx.exec(at(Node::Equal(Box::new(txt("x")), Box::new(num(1)))), &tiny_parse, FUEL);
    assert_eq!(expect_err(r).message, "can't compare int to string");
}

#[test]
fn less_than_orders_integers_and_text() {
    let mut ctx = Context::new();
    let r = ctx.exec(at(Node::LessThan(Box::new(num(-2)), Box::new(num(1)))), &tiny_parse, FUEL);
    assert_eq!(expect_int(r), 1);
    let r = ctx.exec(at(Node::LessThan(Box::new(num(1)), Box::new(num(1)))), &tiny_parse, FUEL);
    assert_eq!(expect_int(r), 0);
    let r = ctx.exec(
        at(Node::LessThan(Box::new(txt("abc")), Box::new(txt("abd")))),
        &tiny_parse,
        FUEL,
    );
    assert_eq!(expect_int(r), 1);
    let r = ctx.exec(at(Node::LessThan(Box::new(txt("ab")), Box::new(txt("abc")))), &tiny_parse, FUEL);
    assert_eq!(expect_int(r), 1);
    let r = ctx.exec(at(Node::LessThan(Box::new(txt("b")), Box::new(txt("abc")))), &tiny_parse, FUEL);
    assert_eq!(expect_int(r), 0);
}

#[test]
fn not_flips_truthiness() {
    let mut ctx = Context::new();
    let r = ctx.exec(at(Node::Not(Box::new(num(0)))), &tiny_parse, FUEL);
    assert_eq!(expect_int(r), 1);
    let r = ctx.exec(at(Node::Not(Box::new(num(-5)))), &tiny_parse, FUEL);
    assert_eq!(expect_int(r), 0);
    let r = ctx.exec(at(Node::Not(Box::new(txt("x")))), &tiny_parse, FUEL);
    assert_eq!(expect_err(r).message, "can't not string");
}

#[test]
fn and_truth_table() {
    let mut ctx = Context::new();
    let r = ctx.exec(at(Node::And(Box::new(num(2)), Box::new(num(-1)))), &tiny_parse, FUEL);
    assert_eq!(expect_int(r), 1);
    let r = ctx.exec(at(Node::And(Box::new(num(2)), Box::new(num(0)))), &tiny_parse, FUEL);
    assert_eq!(expect_int(r), 0);
    let r = ctx.exec(at(Node::And(Box::new(num(0)), Box::new(num(3)))), &tiny_parse, FUEL);
    assert_eq!(expect_int(r), 0);
}

#[test]
fn and_type_errors() {
    let mut ctx = Context::new();
    let r = ctx.exec(at(Node::And(Box::new(num(1)), Box::new(txt("x")))), &tiny_parse, FUEL);
    assert_eq!(expect_err(r).message, "can't and int and string");
    let r = ctx.exec(at(Node::And(Box::new(txt("x")), Box::new(num(1)))), &tiny_parse, FUEL);
    assert_eq!(expect_err(r).message, "can't and string");
}

#[test]
fn and_does_not_short_circuit() {
    let mut ctx = Context::new();
    let r = ctx.exec(
        at(Node::And(Box::new(num(0)), Box::new(at(Node::Exec(Box::new(num(0))))))),
        &tiny_parse,
        FUEL,
    );
    assert_eq!(expect_err(r).message, "can't exec int");
}

#[test]
fn second_returns_right_result() {
    let mut ctx = Context::new();
    let r = ctx.exec(at(Node::Second(Box::new(num(1)), Box::new(txt("b")))), &tiny_parse, FUEL);
    assert_eq!(expect_text(r), "b");
}

#[test]
fn second_propagates_left_error() {
    let mut ctx = Context::new();
    let bad = at(Node::Not(Box::new(txt("x"))));
    let r = ctx.exec(at(Node::Second(Box::new(bad), Box::new(num(1)))), &tiny_parse, FUEL);
    assert_eq!(expect_err(r).message, "can't not string");
}

#[test]
fn define_returns_stored_value() {
    let mut ctx = Context::new();
    let r = ctx.exec(at(Node::Define(Box::new(txt("x")), Box::new(num(5)))), &tiny_parse, FUEL);
    assert_eq!(expect_int(r), 5);
}

#[test]
fn define_access_round_trip() {
    let mut ctx = Context::new();
    let r = ctx.exec(at(Node::Define(Box::new(txt("x")), Box::new(num(5)))), &tiny_parse, FUEL);
    assert_eq!(expect_int(r), 5);
    let r = ctx.exec(at(Node::Access(Box::new(txt("x")))), &tiny_parse, FUEL);
    assert_eq!(expect_int(r), 5);
}

#[test]
fn define_overwrites_last_write_wins() {
    let mut ctx = Context::new();
    ctx.exec(at(Node::Define(Box::new(txt("x")), Box::new(num(5)))), &tiny_parse, FUEL).unwrap();
    ctx.exec(at(Node::Define(Box::new(txt("x")), Box::new(txt("now text")))), &tiny_parse, FUEL)
        .unwrap();
    let r = ctx.exec(at(Node::Access(Box::new(txt("x")))), &tiny_parse, FUEL);
    assert_eq!(expect_text(r), "now text");
}

#[test]
fn access_undefined_fails() {
    let mut ctx = Context::new();
    let r = ctx.exec(at(Node::Access(Box::new(txt("nothing")))), &tiny_parse, FUEL);
    assert_eq!(expect_err(r).message, "no such variable");
}

#[test]
fn define_int_name_fails() {
    let mut ctx = Context::new();
    let r = ctx.exec(at(Node::Define(Box::new(num(1)), Box::new(num(5)))), &tiny_parse, FUEL);
    assert_eq!(expect_err(r).message, "can't use int as variable name");
}

#[test]
fn access_int_fails() {
    let mut ctx = Context::new();
    let r = ctx.exec(at(Node::Access(Box::new(num(1)))), &tiny_parse, FUEL);
    assert_eq!(expect_err(r).message, "can't access int");
}

#[test]
fn exec_text_equals_direct_literal() {
    let mut ctx = Context::new();
    let through_exec = ctx.exec(at(Node::Exec(Box::new(txt("'5")))), &tiny_parse, FUEL);
    let direct = ctx.exec(num(5), &tiny_parse, FUEL);
    assert_eq!(expect_int(through_exec), expect_int(direct));
}

#[test]
fn exec_int_fails() {
    let mut ctx = Context::new();
    let r = ctx.exec(at(Node::Exec(Box::new(num(5)))), &tiny_parse, FUEL);
    assert_eq!(expect_err(r).message, "can't exec int");
}

#[test]
fn call_runs_stored_code() {
    let mut ctx = Context::new();
    ctx.exec(at(Node::Define(Box::new(txt("f")), Box::new(txt("'7")))), &tiny_parse, FUEL)
        .unwrap();
    let r = ctx.exec(at(Node::Call(Box::new(txt("f")))), &tiny_parse, FUEL);
    assert_eq!(expect_int(r), 7);
}

#[test]
fn inline_call_runs_stored_code() {
    let mut ctx = Context::new();
    ctx.exec(at(Node::Define(Box::new(txt("f")), Box::new(txt("'7")))), &tiny_parse, FUEL)
        .unwrap();
    let r = ctx.exec(at(Node::InlineCall(String::from("f"))), &tiny_parse, FUEL);
    assert_eq!(expect_int(r), 7);
}

#[test]
fn call_errors() {
    let mut ctx = Context::new();
    let r = ctx.exec(at(Node::Call(Box::new(txt("g")))), &tiny_parse, FUEL);
    assert_eq!(expect_err(r).message, "no such variable");
    let r = ctx.exec(at(Node::Call(Box::new(num(3)))), &tiny_parse, FUEL);
    assert_eq!(expect_err(r).message, "can't call int");
    ctx.exec(at(Node::Define(Box::new(txt("n")), Box::new(num(3)))), &tiny_parse, FUEL).unwrap();
    let r = ctx.exec(at(Node::Call(Box::new(txt("n")))), &tiny_parse, FUEL);
    assert_eq!(expect_err(r).message, "can't exec int");
    let r = ctx.exec(at(Node::InlineCall(String::from("n"))), &tiny_parse, FUEL);
    assert_eq!(expect_err(r).message, "can't exec int");
}

#[test]
fn exec_depth_limit_is_a_recoverable_error() {
    let mut ctx = Context::new();
    let r = ctx.exec(at(Node::Exec(Box::new(txt("'5")))), &tiny_parse, 0);
    assert_eq!(expect_err(r).message, "exec depth limit reached");
}

#[test]
fn parse_failure_propagates_untouched() {
    let mut ctx = Context::new();
    let r = ctx.exec(at(Node::Exec(Box::new(txt("not a program")))), &tiny_parse, FUEL);
    let e = expect_err(r);
    assert_eq!(e.message, "unsupported source");
    assert_eq!(e.code, 98);
}

#[test]
fn error_carries_node_code_and_span() {
    let mut ctx = Context::new();
    let r = ctx.exec(at(Node::Not(Box::new(txt("x")))), &tiny_parse, FUEL);
    let e = expect_err(r);
    assert_eq!(e.code, 7);
    assert_eq!(e.span, Span { start: 1, end: 4 });
}

#[test]
fn show_returns_scalar_count() {
    let mut ctx = Context::new();
    let r = ctx.exec(at(Node::Show(Box::new(num(-12)))), &tiny_parse, FUEL);
    assert_eq!(expect_int(r), 3);
    let r = ctx.exec(at(Node::Show(Box::new(txt("h\u{e9}llo")))), &tiny_parse, FUEL);
    assert_eq!(expect_int(r), 5);
}

#[test]
fn show_line_returns_scalar_count() {
    let mut ctx = Context::new();
    let r = ctx.exec(at(Node::ShowLine(Box::new(num(905)))), &tiny_parse, FUEL);
    assert_eq!(expect_int(r), 3);
}

#[test]
fn evaluate_program_runs_the_pipeline() {
    let mut ctx = Context::new();
    let r = ctx.evaluate_program("'5", &tiny_parse, FUEL);
    assert_eq!(expect_int(r), 5);
    let r = ctx.evaluate_program("bogus", &tiny_parse, FUEL);
    assert_eq!(expect_err(r).message, "unsupported source");
}
