//! The language's general laws, stated over the spec-level semantics
//! [`crate::sem::eval_pure`] and proved once for all inputs.
//!
//! Each law quantifies over every environment, every re-entry budget, and
//! every tree of the stated shape; [`crate::context::Context::exec`]'s
//! contract carries them to the executable evaluator.

use vstd::prelude::*;

use crate::ast::{Atom, Node, Span, SpecError, SpecValue, Value};
use crate::sem::{err_of, eval_pure, trunc_div, SpecEnv};

verus! {

/// Adding two integer literals whose sum is in range evaluates to the sum
/// and leaves the environment untouched.
pub proof fn law_add_integers(env: SpecEnv, a: Atom, x: i64, y: i64, fuel: nat)
    requires
        a.node matches Node::Add(l, r) && l.node == Node::Const(Value::Integer(x)) && r.node
            == Node::Const(Value::Integer(y)),
        i64::MIN <= x + y <= i64::MAX,
    ensures
        eval_pure(env, a, fuel) == Some(
            (Ok::<SpecValue, SpecError>(SpecValue::Integer((x + y) as i64)), env),
        ),
{
    reveal_with_fuel(eval_pure, 3);
}

/// Subtracting two integer literals whose difference is in range evaluates
/// to the difference and leaves the environment untouched.
pub proof fn law_sub_integers(env: SpecEnv, a: Atom, x: i64, y: i64, fuel: nat)
    requires
        a.node matches Node::Sub(l, r) && l.node == Node::Const(Value::Integer(x)) && r.node
            == Node::Const(Value::Integer(y)),
        i64::MIN <= x - y <= i64::MAX,
    ensures
        eval_pure(env, a, fuel) == Some(
            (Ok::<SpecValue, SpecError>(SpecValue::Integer((x - y) as i64)), env),
        ),
{
    reveal_with_fuel(eval_pure, 3);
}

/// Multiplying two integer literals whose product is in range evaluates to
/// the product and leaves the environment untouched.
#[verifier::rlimit(60)]
pub proof fn law_mul_integers(env: SpecEnv, a: Atom, x: i64, y: i64, fuel: nat)
    requires
        a.node matches Node::Mul(l, r) && l.node == Node::Const(Value::Integer(x)) && r.node
            == Node::Const(Value::Integer(y)),
        i64::MIN <= x * y <= i64::MAX,
    ensures
        eval_pure(env, a, fuel) == Some(
            (Ok::<SpecValue, SpecError>(SpecValue::Integer((x * y) as i64)), env),
        ),
{
    reveal_with_fuel(eval_pure, 3);
}

/// Dividing two integer literals evaluates to the quotient truncated toward
/// zero, whenever the host's division is defined.
pub proof fn law_div_integers(env: SpecEnv, a: Atom, x: i64, y: i64, fuel: nat)
    requires
        a.node matches Node::Div(l, r) && l.node == Node::Const(Value::Integer(x)) && r.node
            == Node::Const(Value::Integer(y)),
        y != 0,
        !(x == i64::MIN && y == -1),
    ensures
        eval_pure(env, a, fuel) == Some(
            (
                Ok::<SpecValue, SpecError>(
                    SpecValue::Integer(trunc_div(x as int, y as int) as i64),
                ),
                env,
            ),
        ),
{
    reveal_with_fuel(eval_pure, 3);
}

/// Dividing by a zero literal has no modelled outcome at all: the semantics
/// assigns no result value, matching the evaluator, which lets the host's
/// division fault rather than return a sentinel.
pub proof fn law_div_by_zero_aborts(env: SpecEnv, a: Atom, x: i64, fuel: nat)
    requires
        a.node matches Node::Div(l, r) && l.node == Node::Const(Value::Integer(x)) && r.node
            == Node::Const(Value::Integer(0i64)),
    ensures
        eval_pure(env, a, fuel) is None,
{
    reveal_with_fuel(eval_pure, 3);
}

/// Adding two text literals evaluates to their concatenation and leaves the
/// environment untouched.
pub proof fn law_add_texts(env: SpecEnv, a: Atom, s: String, t: String, fuel: nat)
    requires
        a.node matches Node::Add(l, r) && l.node == Node::Const(Value::Text(s)) && r.node
            == Node::Const(Value::Text(t)),
    ensures
        eval_pure(env, a, fuel) == Some(
            (Ok::<SpecValue, SpecError>(SpecValue::Text(s@ + t@)), env),
        ),
{
    reveal_with_fuel(eval_pure, 3);
}

/// Adding a text literal to an integer literal fails with the type error
/// naming that direction, carrying the offending node's code and span.
pub proof fn law_add_int_text_fails(env: SpecEnv, a: Atom, x: i64, s: String, fuel: nat)
    requires
        a.node matches Node::Add(l, r) && l.node == Node::Const(Value::Integer(x)) && r.node
            == Node::Const(Value::Text(s)),
    ensures
        eval_pure(env, a, fuel) == Some(
            (err_of(a.code, a.span, "can't add string to int"@), env),
        ),
{
    reveal_with_fuel(eval_pure, 3);
}

/// The symmetric mixed addition fails with the opposite-direction message.
pub proof fn law_add_text_int_fails(env: SpecEnv, a: Atom, s: String, x: i64, fuel: nat)
    requires
        a.node matches Node::Add(l, r) && l.node == Node::Const(Value::Text(s)) && r.node
            == Node::Const(Value::Integer(x)),
    ensures
        eval_pure(env, a, fuel) == Some(
            (err_of(a.code, a.span, "can't add int to string"@), env),
        ),
{
    reveal_with_fuel(eval_pure, 3);
}

/// Defining a literal name to a literal value stores that value, returns
/// it, and a matching Access in the environment the definition left behind
/// returns the same value again.
pub proof fn law_define_access_round_trip(
    env: SpecEnv,
    d: Atom,
    acc: Atom,
    name: String,
    v: Value,
    fuel: nat,
)
    requires
        d.node matches Node::Define(l, r) && l.node == Node::Const(Value::Text(name)) && r.node
            == Node::Const(v),
        acc.node matches Node::Access(e) && e.node == Node::Const(Value::Text(name)),
    ensures
        eval_pure(env, d, fuel) == Some(
            (Ok::<SpecValue, SpecError>(v@), env.insert(name@, v@)),
        ),
        eval_pure(env.insert(name@, v@), acc, fuel) == Some(
            (Ok::<SpecValue, SpecError>(v@), env.insert(name@, v@)),
        ),
{
    reveal_with_fuel(eval_pure, 3);
}

/// Accessing a name the environment does not hold fails with the matching
/// error and changes nothing.
pub proof fn law_access_undefined_fails(env: SpecEnv, acc: Atom, name: String, fuel: nat)
    requires
        acc.node matches Node::Access(e) && e.node == Node::Const(Value::Text(name)),
        !env.contains_key(name@),
    ensures
        eval_pure(env, acc, fuel) == Some((err_of(acc.code, acc.span, "no such variable"@), env)),
{
    reveal_with_fuel(eval_pure, 3);
}

/// And never short-circuits: even when the left side is already falsy, the
/// right side is evaluated, so an Exec of an integer literal there still
/// surfaces its own type error, under the Exec node's code and span.
#[verifier::rlimit(60)]
pub proof fn law_and_no_short_circuit(
    env: SpecEnv,
    a: Atom,
    x: i64,
    y: i64,
    inner_code: u64,
    inner_span: Span,
    fuel: nat,
)
    requires
        a.node matches Node::And(l, r) && l.node == Node::Const(Value::Integer(x)) && (
        r.node matches Node::Exec(e) && e.node == Node::Const(Value::Integer(y))) && r.code
            == inner_code && r.span == inner_span,
    ensures
        eval_pure(env, a, fuel) == Some((err_of(inner_code, inner_span, "can't exec int"@), env)),
{
    reveal_with_fuel(eval_pure, 3);
}

/// Calling a name the environment does not hold fails with the matching
/// error and changes nothing.
pub proof fn law_call_undefined_fails(env: SpecEnv, c: Atom, name: String, fuel: nat)
    requires
        c.node matches Node::Call(e) && e.node == Node::Const(Value::Text(name)),
        !env.contains_key(name@),
    ensures
        eval_pure(env, c, fuel) == Some((err_of(c.code, c.span, "no such variable"@), env)),
{
    reveal_with_fuel(eval_pure, 3);
}


} // verus!
