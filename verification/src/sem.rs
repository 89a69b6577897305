//! The mathematical semantics of the language: one spec function per
//! operator's typing and result rule, and a deterministic partial interpreter
//! over whole trees.
//!
//! [`eval_pure`] pins the result and the final environment of every
//! evaluation whose outcome the host does not decide. It returns `None`
//! exactly where the outcome is out of this model's hands: a file operation
//! reaching the disk, a zero (or overflowing) divisor faulting the host, or
//! a homoiconic re-entry handing text to the caller's parser.

use vstd::prelude::*;

use crate::ast::{Atom, LanguageError, Node, Span, SpecError, SpecValue, Value};
use crate::show::dec_rep_i64;

verus! {

/// The variable environment, mathematically: one global scope mapping names
/// to values.
pub type SpecEnv = Map<Seq<char>, SpecValue>;

/// What one evaluation step may produce: `None` where the host decides,
/// otherwise the outcome and the environment it leaves behind.
pub type SpecOutcome = Option<(Result<SpecValue, SpecError>, SpecEnv)>;

/// The view of an evaluator result.
pub open spec fn out_view(r: Result<Value, LanguageError>) -> Result<SpecValue, SpecError> {
    match r {
        Ok(v) => Ok(v@),
        Err(e) => Err(e@),
    }
}

/// An error carrying the current node's code and span.
pub open spec fn err_of(code: u64, span: Span, message: Seq<char>) -> Result<
    SpecValue,
    SpecError,
> {
    Err(SpecError { code, message, span })
}

/// The magnitude of an integer.
pub open spec fn iabs(x: int) -> int {
    if x < 0 {
        -x
    } else {
        x
    }
}

/// Integer division truncated toward zero, as the host's `/` computes it.
pub open spec fn trunc_div(n: int, d: int) -> int {
    if (n < 0) == (d < 0) {
        iabs(n) / iabs(d)
    } else {
        -(iabs(n) / iabs(d))
    }
}

/// Lexicographic order on text, by Unicode scalar value.
pub open spec fn text_lt(a: Seq<char>, b: Seq<char>) -> bool
    decreases a.len(),
{
    if b.len() == 0 {
        false
    } else if a.len() == 0 {
        true
    } else if a[0] < b[0] {
        true
    } else if b[0] < a[0] {
        false
    } else {
        text_lt(a.skip(1), b.skip(1))
    }
}

/// A length clipped into the range an `Integer` can carry.
pub open spec fn sat_len(n: nat) -> i64 {
    if n <= i64::MAX as nat {
        n as i64
    } else {
        i64::MAX
    }
}

/// How a value is formatted for display: integers in decimal, text as
/// itself.
pub open spec fn shown(v: SpecValue) -> Seq<char> {
    match v {
        SpecValue::Integer(i) => dec_rep_i64(i),
        SpecValue::Text(s) => s,
    }
}

/// Addition: integers wrap as the host does; text concatenates; mixing the
/// kinds fails, naming the direction.
pub open spec fn apply_add(l: SpecValue, r: SpecValue, code: u64, span: Span) -> Result<
    SpecValue,
    SpecError,
> {
    match l {
        SpecValue::Integer(a) => match r {
            SpecValue::Integer(b) => Ok(
                SpecValue::Integer(vstd::wrapping::i64_specs::wrapping_add(a, b)),
            ),
            SpecValue::Text(_) => err_of(code, span, "can't add string to int"@),
        },
        SpecValue::Text(s) => match r {
            SpecValue::Text(t) => Ok(SpecValue::Text(s + t)),
            SpecValue::Integer(_) => err_of(code, span, "can't add int to string"@),
        },
    }
}

/// Subtraction: integers only.
pub open spec fn apply_sub(l: SpecValue, r: SpecValue, code: u64, span: Span) -> Result<
    SpecValue,
    SpecError,
> {
    match l {
        SpecValue::Integer(a) => match r {
            SpecValue::Integer(b) => Ok(
                SpecValue::Integer(vstd::wrapping::i64_specs::wrapping_sub(a, b)),
            ),
            SpecValue::Text(_) => err_of(code, span, "can't sub string from int"@),
        },
        SpecValue::Text(_) => err_of(code, span, "can't sub from string"@),
    }
}

/// Multiplication: integers only.
pub open spec fn apply_mul(l: SpecValue, r: SpecValue, code: u64, span: Span) -> Result<
    SpecValue,
    SpecError,
> {
    match l {
        SpecValue::Integer(a) => match r {
            SpecValue::Integer(b) => Ok(
                SpecValue::Integer(vstd::wrapping::i64_specs::wrapping_mul(a, b)),
            ),
            SpecValue::Text(_) => err_of(code, span, "can't mul int by string"@),
        },
        SpecValue::Text(_) => err_of(code, span, "can't mul string"@),
    }
}

/// Division: integers only, truncating toward zero. `None` where the host
/// faults: a zero divisor, or the one overflowing quotient.
pub open spec fn apply_div(l: SpecValue, r: SpecValue, code: u64, span: Span) -> Option<
    Result<SpecValue, SpecError>,
> {
    match l {
        SpecValue::Integer(a) => match r {
            SpecValue::Integer(b) => if b == 0 || (a == i64::MIN && b == -1) {
                None
            } else {
                Some(Ok(SpecValue::Integer(trunc_div(a as int, b as int) as i64)))
            },
            SpecValue::Text(_) => Some(err_of(code, span, "can't div int by string"@)),
        },
        SpecValue::Text(_) => Some(err_of(code, span, "can't div string"@)),
    }
}

/// Equality: both integers or both text; `1` for equal, `0` otherwise.
pub open spec fn apply_equal(l: SpecValue, r: SpecValue, code: u64, span: Span) -> Result<
    SpecValue,
    SpecError,
> {
    match l {
        SpecValue::Integer(a) => match r {
            SpecValue::Integer(b) => Ok(
                SpecValue::Integer(
                    if a == b {
                        1
                    } else {
                        0
                    },
                ),
            ),
            SpecValue::Text(_) => err_of(code, span, "can't compare string to int"@),
        },
        SpecValue::Text(s) => match r {
            SpecValue::Text(t) => Ok(
                SpecValue::Integer(
                    if s == t {
                        1
                    } else {
                        0
                    },
                ),
            ),
            SpecValue::Integer(_) => err_of(code, span, "can't compare int to string"@),
        },
    }
}

/// Ordering: both integers, or both text compared lexicographically.
pub open spec fn apply_less(l: SpecValue, r: SpecValue, code: u64, span: Span) -> Result<
    SpecValue,
    SpecError,
> {
    match l {
        SpecValue::Integer(a) => match r {
            SpecValue::Integer(b) => Ok(
                SpecValue::Integer(
                    if a < b {
                        1
                    } else {
                        0
                    },
                ),
            ),
            SpecValue::Text(_) => err_of(code, span, "can't compare string to int"@),
        },
        SpecValue::Text(s) => match r {
            SpecValue::Text(t) => Ok(
                SpecValue::Integer(
                    if text_lt(s, t) {
                        1
                    } else {
                        0
                    },
                ),
            ),
            SpecValue::Integer(_) => err_of(code, span, "can't compare int to string"@),
        },
    }
}

/// Logical negation of an integer's truthiness.
pub open spec fn apply_not(v: SpecValue, code: u64, span: Span) -> Result<SpecValue, SpecError> {
    match v {
        SpecValue::Integer(a) => Ok(
            SpecValue::Integer(
                if a == 0 {
                    1
                } else {
                    0
                },
            ),
        ),
        SpecValue::Text(_) => err_of(code, span, "can't not string"@),
    }
}

/// Conjunction of two integers' truthiness. Both sides were already
/// evaluated: the operator never short-circuits.
pub open spec fn apply_and(l: SpecValue, r: SpecValue, code: u64, span: Span) -> Result<
    SpecValue,
    SpecError,
> {
    match l {
        SpecValue::Integer(a) => match r {
            SpecValue::Integer(b) => Ok(
                SpecValue::Integer(
                    if a != 0 && b != 0 {
                        1
                    } else {
                        0
                    },
                ),
            ),
            SpecValue::Text(_) => err_of(code, span, "can't and int and string"@),
        },
        SpecValue::Text(_) => err_of(code, span, "can't and string"@),
    }
}

/// What re-entering the pipeline on a looked-up or computed text yields when
/// the model itself can say: a non-text value is refused, and an exhausted
/// re-entry budget is reported; an actual parse is the caller's parser's to
/// decide, so the model stops there.
pub open spec fn reenter(v: SpecValue, fuel: nat, code: u64, span: Span) -> Option<
    Result<SpecValue, SpecError>,
> {
    match v {
        SpecValue::Integer(_) => Some(err_of(code, span, "can't exec int"@)),
        SpecValue::Text(_) => if fuel == 0 {
            Some(err_of(code, span, "exec depth limit reached"@))
        } else {
            None
        },
    }
}

/// The deterministic fragment of the language's big-step semantics: what one
/// evaluation returns and how it leaves the environment, wherever that does
/// not depend on the disk, on a host fault, or on the external parser.
pub open spec fn eval_pure(env: SpecEnv, a: Atom, fuel: nat) -> SpecOutcome
    decreases a,
{
    match a.node {
        Node::Const(v) => Some((Ok(v@), env)),
        Node::Add(l, r) => match eval_pure(env, *l, fuel) {
            None => None,
            Some((Err(e), env1)) => Some((Err(e), env1)),
            Some((Ok(lv), env1)) => match eval_pure(env1, *r, fuel) {
                None => None,
                Some((Err(e), env2)) => Some((Err(e), env2)),
                Some((Ok(rv), env2)) => Some((apply_add(lv, rv, a.code, a.span), env2)),
            },
        },
        Node::Sub(l, r) => match eval_pure(env, *l, fuel) {
            None => None,
            Some((Err(e), env1)) => Some((Err(e), env1)),
            Some((Ok(lv), env1)) => match eval_pure(env1, *r, fuel) {
                None => None,
                Some((Err(e), env2)) => Some((Err(e), env2)),
                Some((Ok(rv), env2)) => Some((apply_sub(lv, rv, a.code, a.span), env2)),
            },
        },
        Node::Mul(l, r) => match eval_pure(env, *l, fuel) {
            None => None,
            Some((Err(e), env1)) => Some((Err(e), env1)),
            Some((Ok(lv), env1)) => match eval_pure(env1, *r, fuel) {
                None => None,
                Some((Err(e), env2)) => Some((Err(e), env2)),
                Some((Ok(rv), env2)) => Some((apply_mul(lv, rv, a.code, a.span), env2)),
            },
        },
        Node::Equal(l, r) => match eval_pure(env, *l, fuel) {
            None => None,
            Some((Err(e), env1)) => Some((Err(e), env1)),
            Some((Ok(lv), env1)) => match eval_pure(env1, *r, fuel) {
                None => None,
                Some((Err(e), env2)) => Some((Err(e), env2)),
                Some((Ok(rv), env2)) => Some((apply_equal(lv, rv, a.code, a.span), env2)),
            },
        },
        Node::LessThan(l, r) => match eval_pure(env, *l, fuel) {
            None => None,
            Some((Err(e), env1)) => Some((Err(e), env1)),
            Some((Ok(lv), env1)) => match eval_pure(env1, *r, fuel) {
                None => None,
                Some((Err(e), env2)) => Some((Err(e), env2)),
                Some((Ok(rv), env2)) => Some((apply_less(lv, rv, a.code, a.span), env2)),
            },
        },
        Node::And(l, r) => match eval_pure(env, *l, fuel) {
            None => None,
            Some((Err(e), env1)) => Some((Err(e), env1)),
            Some((Ok(lv), env1)) => match eval_pure(env1, *r, fuel) {
                None => None,
                Some((Err(e), env2)) => Some((Err(e), env2)),
                Some((Ok(rv), env2)) => Some((apply_and(lv, rv, a.code, a.span), env2)),
            },
        },
        Node::Div(l, r) => match eval_pure(env, *l, fuel) {
            None => None,
            Some((Err(e), env1)) => Some((Err(e), env1)),
            Some((Ok(lv), env1)) => match eval_pure(env1, *r, fuel) {
                None => None,
                Some((Err(e), env2)) => Some((Err(e), env2)),
                Some((Ok(rv), env2)) => match apply_div(lv, rv, a.code, a.span) {
                    None => None,
                    Some(res) => Some((res, env2)),
                },
            },
        },
        Node::Second(l, r) => match eval_pure(env, *l, fuel) {
            None => None,
            Some((Err(e), env1)) => Some((Err(e), env1)),
            Some((Ok(_), env1)) => eval_pure(env1, *r, fuel),
        },
        Node::Not(e) => match eval_pure(env, *e, fuel) {
            None => None,
            Some((Err(er), env1)) => Some((Err(er), env1)),
            Some((Ok(v), env1)) => Some((apply_not(v, a.code, a.span), env1)),
        },
        Node::Show(e) | Node::ShowLine(e) => match eval_pure(env, *e, fuel) {
            None => None,
            Some((Err(er), env1)) => Some((Err(er), env1)),
            Some((Ok(v), env1)) => Some(
                (Ok(SpecValue::Integer(sat_len(shown(v).len()))), env1),
            ),
        },
        Node::Define(l, r) => match eval_pure(env, *l, fuel) {
            None => None,
            Some((Err(e), env1)) => Some((Err(e), env1)),
            Some((Ok(lv), env1)) => match eval_pure(env1, *r, fuel) {
                None => None,
                Some((Err(e), env2)) => Some((Err(e), env2)),
                Some((Ok(rv), env2)) => match lv {
                    SpecValue::Integer(_) => Some(
                        (err_of(a.code, a.span, "can't use int as variable name"@), env2),
                    ),
                    SpecValue::Text(name) => Some((Ok(rv), env2.insert(name, rv))),
                },
            },
        },
        Node::Access(e) => match eval_pure(env, *e, fuel) {
            None => None,
            Some((Err(er), env1)) => Some((Err(er), env1)),
            Some((Ok(v), env1)) => match v {
                SpecValue::Integer(_) => Some(
                    (err_of(a.code, a.span, "can't access int"@), env1),
                ),
                SpecValue::Text(name) => if env1.contains_key(name) {
                    Some((Ok(env1[name]), env1))
                } else {
                    Some((err_of(a.code, a.span, "no such variable"@), env1))
                },
            },
        },
        Node::Exec(e) => match eval_pure(env, *e, fuel) {
            None => None,
            Some((Err(er), env1)) => Some((Err(er), env1)),
            Some((Ok(v), env1)) => match reenter(v, fuel, a.code, a.span) {
                None => None,
                Some(res) => Some((res, env1)),
            },
        },
        Node::Call(e) => match eval_pure(env, *e, fuel) {
            None => None,
            Some((Err(er), env1)) => Some((Err(er), env1)),
            Some((Ok(v), env1)) => match v {
                SpecValue::Integer(_) => Some(
                    (err_of(a.code, a.span, "can't call int"@), env1),
                ),
                SpecValue::Text(name) => if !env1.contains_key(name) {
                    Some((err_of(a.code, a.span, "no such variable"@), env1))
                } else {
                    match reenter(env1[name], fuel, a.code, a.span) {
                        None => None,
                        Some(res) => Some((res, env1)),
                    }
                },
            },
        },
        Node::InlineCall(name) => if !env.contains_key(name@) {
            Some((err_of(a.code, a.span, "no such variable"@), env))
        } else {
            match reenter(env[name@], fuel, a.code, a.span) {
                None => None,
                Some(res) => Some((res, env)),
            }
        },
        Node::ReadFile(e) => match eval_pure(env, *e, fuel) {
            None => None,
            Some((Err(er), env1)) => Some((Err(er), env1)),
            Some((Ok(v), env1)) => match v {
                SpecValue::Integer(_) => Some(
                    (err_of(a.code, a.span, "can't use int as file name"@), env1),
                ),
                SpecValue::Text(_) => None,
            },
        },
        Node::WriteFile(l, r) | Node::AppendFile(l, r) => match eval_pure(env, *l, fuel) {
            None => None,
            Some((Err(e), env1)) => Some((Err(e), env1)),
            Some((Ok(lv), env1)) => match eval_pure(env1, *r, fuel) {
                None => None,
                Some((Err(e), env2)) => Some((Err(e), env2)),
                Some((Ok(rv), env2)) => match lv {
                    SpecValue::Integer(_) => Some(
                        (err_of(a.code, a.span, "can't use int as file name"@), env2),
                    ),
                    SpecValue::Text(_) => match rv {
                        SpecValue::Integer(_) => Some(
                            (err_of(a.code, a.span, "can't write int to file"@), env2),
                        ),
                        SpecValue::Text(_) => None,
                    },
                },
            },
        },
    }
}

} // verus!
