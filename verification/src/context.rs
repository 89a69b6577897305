//! The evaluation session: the single global variable environment and the
//! recursive evaluator over syntax trees.

use vstd::prelude::*;

use crate::ast::{Atom, LanguageError, Node, Span, SpecError, SpecValue, Value};
use crate::host;
use crate::host::FileOutcome;
use crate::sem::{
    apply_add, apply_and, apply_div, apply_equal, apply_less, apply_mul, apply_not, apply_sub,
    err_of, eval_pure, out_view, sat_len, SpecEnv,
};
use crate::show;
use vstd::string::StrSliceExecFns;

verus! {

/// The environment a sequence of bindings stands for: later bindings of a
/// name shadow earlier ones.
pub open spec fn env_of(entries: Seq<(String, Value)>) -> SpecEnv
    decreases entries.len(),
{
    if entries.len() == 0 {
        Map::empty()
    } else {
        env_of(entries.drop_last()).insert(entries.last().0@, entries.last().1@)
    }
}

/// One evaluation session: the global name-to-value environment, created
/// empty and mutated only by the Define operator.
pub struct Context {
    vars: Vec<(String, Value)>,
}

impl View for Context {
    type V = SpecEnv;

    closed spec fn view(&self) -> SpecEnv {
        env_of(self.vars@)
    }
}

/// A binding whose name is not `k` leaves the environment unchanged at `k`.
proof fn lemma_env_step(s: Seq<(String, Value)>, k: Seq<char>)
    requires
        s.len() > 0,
        s.last().0@ != k,
    ensures
        env_of(s).contains_key(k) == env_of(s.drop_last()).contains_key(k),
        env_of(s).contains_key(k) ==> env_of(s)[k] == env_of(s.drop_last())[k],
{
}

/// Clips a character count into the range an `Integer` can carry.
fn len_to_i64(n: usize) -> (r: i64)
    ensures
        r == sat_len(n as nat),
{
    if n as u64 <= i64::MAX as u64 {
        n as i64
    } else {
        i64::MAX
    }
}

/// What a write or append returns for each way the host reported it ending.
pub open spec fn file_result(oc: FileOutcome, content: Seq<char>, code: u64, span: Span) -> Result<
    SpecValue,
    SpecError,
> {
    match oc {
        FileOutcome::Done => Ok(SpecValue::Integer(sat_len(content.len()))),
        FileOutcome::OpenFailed => err_of(code, span, "can't create new file"@),
        FileOutcome::WriteFailed => err_of(code, span, "can't write to file"@),
    }
}

/// Turns the host's report of a write or append into the operator's result:
/// the written text's scalar-value count on success, the matching error
/// otherwise.
pub(crate) fn finish_file(oc: FileOutcome, content: &String, code: u64, span: Span) -> (r: Result<
    Value,
    LanguageError,
>)
    ensures
        out_view(r) == file_result(oc, content@, code, span),
{
    match oc {
        FileOutcome::Done => {
            let n = content.as_str().unicode_len();
            Ok(Value::Integer(len_to_i64(n)))
        },
        FileOutcome::OpenFailed => Err(LanguageError::at(code, span, "can't create new file")),
        FileOutcome::WriteFailed => Err(LanguageError::at(code, span, "can't write to file")),
    }
}

/// What a read returns for each way the host reported it ending.
pub open spec fn read_result(oc: Result<String, ()>, code: u64, span: Span) -> Result<
    SpecValue,
    SpecError,
> {
    match oc {
        Ok(s) => Ok(SpecValue::Text(s@)),
        Err(_) => err_of(code, span, "can't read from file"@),
    }
}

/// What a homoiconic re-entry on the stored or computed text `prog` yields:
/// the parser's failure returned untouched with the environment as it
/// stood, or the parsed tree's own evaluation with the rest of the budget.
pub open spec fn reentered<F: Fn(&str) -> Result<Atom, LanguageError>>(
    parser: F,
    prog: Seq<char>,
    env1: SpecEnv,
    rest: nat,
    r: Result<Value, LanguageError>,
    post: SpecEnv,
) -> bool {
    exists|s: &str, pr: Result<Atom, LanguageError>|
        {
            &&& s@ == prog
            &&& #[trigger] call_ensures(parser, (s,), pr)
            &&& match pr {
                Err(pe) => r == Err::<Value, LanguageError>(pe) && post == env1,
                Ok(t) => match eval_pure(env1, t, rest) {
                    Some(out) => out_view(r) == out.0 && post == out.1,
                    None => true,
                },
            }
        }
}

/// The evaluator's promise for a root Exec node: once the operand
/// evaluates to text and budget remains, [`reentered`] holds.
#[verifier::opaque]
pub open spec fn exec_root_post<F: Fn(&str) -> Result<Atom, LanguageError>>(
    parser: F,
    pre: SpecEnv,
    operand: Atom,
    fuel: nat,
    r: Result<Value, LanguageError>,
    post: SpecEnv,
) -> bool {
    match eval_pure(pre, operand, fuel) {
        Some((Ok(SpecValue::Text(prog)), env1)) => fuel > 0 ==> reentered(
            parser,
            prog,
            env1,
            (fuel - 1) as nat,
            r,
            post,
        ),
        _ => true,
    }
}

/// The evaluator's promise for a root Call node: once the operand names a
/// variable holding text and budget remains, [`reentered`] holds.
#[verifier::opaque]
pub open spec fn call_root_post<F: Fn(&str) -> Result<Atom, LanguageError>>(
    parser: F,
    pre: SpecEnv,
    operand: Atom,
    fuel: nat,
    r: Result<Value, LanguageError>,
    post: SpecEnv,
) -> bool {
    match eval_pure(pre, operand, fuel) {
        Some((Ok(SpecValue::Text(vname)), env1)) => if env1.contains_key(vname) && fuel > 0 {
            match env1[vname] {
                SpecValue::Text(prog) => reentered(parser, prog, env1, (fuel - 1) as nat, r, post),
                SpecValue::Integer(_) => true,
            }
        } else {
            true
        },
        _ => true,
    }
}

/// The evaluator's promise for a root InlineCall node: once the literal
/// name holds text and budget remains, [`reentered`] holds.
#[verifier::opaque]
pub open spec fn inline_root_post<F: Fn(&str) -> Result<Atom, LanguageError>>(
    parser: F,
    pre: SpecEnv,
    name: Seq<char>,
    fuel: nat,
    r: Result<Value, LanguageError>,
    post: SpecEnv,
) -> bool {
    if pre.contains_key(name) && fuel > 0 {
        match pre[name] {
            SpecValue::Text(prog) => reentered(parser, prog, pre, (fuel - 1) as nat, r, post),
            SpecValue::Integer(_) => true,
        }
    } else {
        true
    }
}

/// The evaluator's promise for a root ReadFile node: once the operand
/// evaluates to text, the environment it left stands untouched and the
/// result is [`read_result`] of whichever outcome the host reported.
#[verifier::opaque]
pub open spec fn read_root_post(
    pre: SpecEnv,
    operand: Atom,
    fuel: nat,
    r: Result<Value, LanguageError>,
    post: SpecEnv,
    code: u64,
    span: Span,
) -> bool {
    match eval_pure(pre, operand, fuel) {
        Some((Ok(SpecValue::Text(_)), env1)) => post == env1 && exists|oc: Result<String, ()>|
            out_view(r) == #[trigger] read_result(oc, code, span),
        _ => true,
    }
}

/// The evaluator's promise for a root WriteFile or AppendFile node: once
/// both operands evaluate to text, the environment they left stands
/// untouched and the result is [`file_result`] of whichever outcome the
/// host reported.
#[verifier::opaque]
pub open spec fn file_root_post(
    pre: SpecEnv,
    lop: Atom,
    rop: Atom,
    fuel: nat,
    r: Result<Value, LanguageError>,
    post: SpecEnv,
    code: u64,
    span: Span,
) -> bool {
    match eval_pure(pre, lop, fuel) {
        Some((Ok(SpecValue::Text(_)), env1)) => match eval_pure(env1, rop, fuel) {
            Some((Ok(SpecValue::Text(content)), env2)) => post == env2 && exists|oc: FileOutcome|
                out_view(r) == #[trigger] file_result(oc, content, code, span),
            _ => true,
        },
        _ => true,
    }
}

/// Turns the host's report of a file read into the operator's result: the
/// decoded text on success, the matching error otherwise.
pub(crate) fn finish_read(oc: Result<String, ()>, code: u64, span: Span) -> (r: Result<
    Value,
    LanguageError,
>)
    ensures
        out_view(r) == read_result(oc, code, span),
{
    match oc {
        Ok(s) => Ok(Value::Text(s)),
        Err(_) => Err(LanguageError::at(code, span, "can't read from file")),
    }
}


/// The Add rule on already-evaluated operands.
fn apply_add_values(lv: Value, rv: Value, code: u64, span: Span) -> (r: Result<Value, LanguageError>)
    ensures
        out_view(r) == apply_add(lv@, rv@, code, span),
{
    match (lv, rv) {
        (Value::Integer(a), Value::Integer(b)) => Ok(Value::Integer(a.wrapping_add(b))),
        (Value::Integer(_), Value::Text(_)) => Err(
            LanguageError::at(code, span, "can't add string to int"),
        ),
        (Value::Text(s), Value::Text(t)) => Ok(Value::Text(s.concat(t.as_str()))),
        (Value::Text(_), Value::Integer(_)) => Err(
            LanguageError::at(code, span, "can't add int to string"),
        ),
    }
}

/// The Sub rule on already-evaluated operands.
fn apply_sub_values(lv: Value, rv: Value, code: u64, span: Span) -> (r: Result<Value, LanguageError>)
    ensures
        out_view(r) == apply_sub(lv@, rv@, code, span),
{
    match (lv, rv) {
        (Value::Integer(a), Value::Integer(b)) => Ok(Value::Integer(a.wrapping_sub(b))),
        (Value::Integer(_), Value::Text(_)) => Err(
            LanguageError::at(code, span, "can't sub string from int"),
        ),
        (Value::Text(_), _) => Err(LanguageError::at(code, span, "can't sub from string")),
    }
}

/// The Mul rule on already-evaluated operands.
fn apply_mul_values(lv: Value, rv: Value, code: u64, span: Span) -> (r: Result<Value, LanguageError>)
    ensures
        out_view(r) == apply_mul(lv@, rv@, code, span),
{
    match (lv, rv) {
        (Value::Integer(a), Value::Integer(b)) => Ok(Value::Integer(a.wrapping_mul(b))),
        (Value::Integer(_), Value::Text(_)) => Err(
            LanguageError::at(code, span, "can't mul int by string"),
        ),
        (Value::Text(_), _) => Err(LanguageError::at(code, span, "can't mul string")),
    }
}

/// The Div rule on already-evaluated operands. A zero divisor, and the one
/// overflowing quotient, fault the host inside [`host::divide`] by design.
fn apply_div_values(lv: Value, rv: Value, code: u64, span: Span) -> (r: Result<Value, LanguageError>)
    ensures
        match apply_div(lv@, rv@, code, span) {
            Some(res) => out_view(r) == res,
            None => true,
        },
{
    match (lv, rv) {
        (Value::Integer(a), Value::Integer(b)) => Ok(Value::Integer(host::divide(a, b))),
        (Value::Integer(_), Value::Text(_)) => Err(
            LanguageError::at(code, span, "can't div int by string"),
        ),
        (Value::Text(_), _) => Err(LanguageError::at(code, span, "can't div string")),
    }
}

/// The Equal rule on already-evaluated operands.
fn apply_equal_values(lv: Value, rv: Value, code: u64, span: Span) -> (r: Result<
    Value,
    LanguageError,
>)
    ensures
        out_view(r) == apply_equal(lv@, rv@, code, span),
{
    match (lv, rv) {
        (Value::Integer(a), Value::Integer(b)) => Ok(
            Value::Integer(
                if a == b {
                    1
                } else {
                    0
                },
            ),
        ),
        (Value::Integer(_), Value::Text(_)) => Err(
            LanguageError::at(code, span, "can't compare string to int"),
        ),
        (Value::Text(s), Value::Text(t)) => Ok(
            Value::Integer(
                if s == t {
                    1
                } else {
                    0
                },
            ),
        ),
        (Value::Text(_), Value::Integer(_)) => Err(
            LanguageError::at(code, span, "can't compare int to string"),
        ),
    }
}

/// The LessThan rule on already-evaluated operands.
fn apply_less_values(lv: Value, rv: Value, code: u64, span: Span) -> (r: Result<
    Value,
    LanguageError,
>)
    ensures
        out_view(r) == apply_less(lv@, rv@, code, span),
{
    match (lv, rv) {
        (Value::Integer(a), Value::Integer(b)) => Ok(
            Value::Integer(
                if a < b {
                    1
                } else {
                    0
                },
            ),
        ),
        (Value::Integer(_), Value::Text(_)) => Err(
            LanguageError::at(code, span, "can't compare string to int"),
        ),
        (Value::Text(s), Value::Text(t)) => Ok(
            Value::Integer(
                if host::text_less(&s, &t) {
                    1
                } else {
                    0
                },
            ),
        ),
        (Value::Text(_), Value::Integer(_)) => Err(
            LanguageError::at(code, span, "can't compare int to string"),
        ),
    }
}

/// The Not rule on an already-evaluated operand.
fn apply_not_value(v: Value, code: u64, span: Span) -> (r: Result<Value, LanguageError>)
    ensures
        out_view(r) == apply_not(v@, code, span),
{
    match v {
        Value::Integer(a) => Ok(
            Value::Integer(
                if a == 0 {
                    1
                } else {
                    0
                },
            ),
        ),
        Value::Text(_) => Err(LanguageError::at(code, span, "can't not string")),
    }
}

/// The And rule on already-evaluated operands; both sides were evaluated
/// before this rule looks at either.
fn apply_and_values(lv: Value, rv: Value, code: u64, span: Span) -> (r: Result<Value, LanguageError>)
    ensures
        out_view(r) == apply_and(lv@, rv@, code, span),
{
    match (lv, rv) {
        (Value::Integer(a), Value::Integer(b)) => Ok(
            Value::Integer(
                if a != 0 && b != 0 {
                    1
                } else {
                    0
                },
            ),
        ),
        (Value::Integer(_), Value::Text(_)) => Err(
            LanguageError::at(code, span, "can't and int and string"),
        ),
        (Value::Text(_), _) => Err(LanguageError::at(code, span, "can't and string")),
    }
}

/// The Show rule on an already-evaluated operand: the formatted text and
/// the value the operator returns, the text's scalar-value count.
fn shown_text(v: Value) -> (out: (String, Value))
    ensures
        out.0@ == crate::sem::shown(v@),
        out.1@ == SpecValue::Integer(sat_len(crate::sem::shown(v@).len())),
{
    let s: String = match v {
        Value::Integer(i) => show::decimal_i64(i),
        Value::Text(t) => t,
    };
    let n = s.as_str().unicode_len();
    let count = Value::Integer(len_to_i64(n));
    (s, count)
}

impl Default for Context {
    /// A fresh session with an empty environment.
    fn default() -> (c: Context)
        ensures
            c@ == Map::<Seq<char>, SpecValue>::empty(),
    {
        Context { vars: Vec::new() }
    }
}

impl Context {
    /// A fresh session with an empty environment.
    pub fn new() -> (c: Context)
        ensures
            c@ == Map::<Seq<char>, SpecValue>::empty(),
    {
        Context { vars: Vec::new() }
    }

    /// Binds `name` to `value`, shadowing any earlier binding: last write
    /// wins, and there is no scoping.
    fn define(&mut self, name: String, value: Value)
        ensures
            final(self)@ == old(self)@.insert(name@, value@),
    {
        let ghost before = self.vars@;
        self.vars.push((name, value));
        proof {
            assert(self.vars@.drop_last() =~= before);
        }
    }

    /// Looks a name up: the latest value bound to it, if any.
    fn lookup(&self, name: &String) -> (r: Option<&Value>)
        ensures
            match r {
                Some(v) => self@.contains_key(name@) && v@ == self@[name@],
                None => !self@.contains_key(name@),
            },
    {
        let mut i: usize = self.vars.len();
        proof {
            assert(self.vars@.take(i as int) =~= self.vars@);
        }
        while i > 0
            invariant
                i <= self.vars.len(),
                env_of(self.vars@).contains_key(name@) == env_of(
                    self.vars@.take(i as int),
                ).contains_key(name@),
                env_of(self.vars@).contains_key(name@) ==> env_of(self.vars@)[name@] == env_of(
                    self.vars@.take(i as int),
                )[name@],
            decreases i,
        {
            let idx = i - 1;
            proof {
                assert(self.vars@.take(idx as int + 1).drop_last() =~= self.vars@.take(
                    idx as int,
                ));
                assert(self.vars@.take(idx as int + 1).last() == self.vars@[idx as int]);
            }
            if self.vars[idx].0 == *name {
                return Some(&self.vars[idx].1);
            }
            proof {
                lemma_env_step(self.vars@.take(idx as int + 1), name@);
            }
            i = idx;
        }
        proof {
            assert(self.vars@.take(0) =~= Seq::<(String, Value)>::empty());
        }
        None
    }

    /// The recursion behind [`Context::exec`]: one evaluation step for
    /// every operator, re-entering itself for subtrees and for parsed code.
    #[verifier::rlimit(60)]
    fn exec_inner<F: Fn(&str) -> Result<Atom, LanguageError>>(
        &mut self,
        ast: Atom,
        parser: &F,
        fuel: u64,
    ) -> (r: Result<Value, LanguageError>)
        requires
            forall|s: &str| #[trigger] call_requires(*parser, (s,)),
        ensures
            old(self)@.dom().subset_of(final(self)@.dom()),
            match eval_pure(old(self)@, ast, fuel as nat) {
                Some(out) => out_view(r) == out.0 && final(self)@ == out.1,
                None => true,
            },
        decreases fuel, ast,
    {
        let span = ast.span;
        let code = ast.code;
        match ast.node {
            Node::Const(v) => Ok(v),
            Node::Add(l, r) => {
                let lv = match self.exec_inner(*l, parser, fuel) {
                    Ok(v) => v,
                    Err(e) => { return Err(e); },
                };
                let rv = match self.exec_inner(*r, parser, fuel) {
                    Ok(v) => v,
                    Err(e) => { return Err(e); },
                };
                apply_add_values(lv, rv, code, span)
            },
            Node::Sub(l, r) => {
                let lv = match self.exec_inner(*l, parser, fuel) {
                    Ok(v) => v,
                    Err(e) => { return Err(e); },
                };
                let rv = match self.exec_inner(*r, parser, fuel) {
                    Ok(v) => v,
                    Err(e) => { return Err(e); },
                };
                apply_sub_values(lv, rv, code, span)
            },
            Node::Mul(l, r) => {
                let lv = match self.exec_inner(*l, parser, fuel) {
                    Ok(v) => v,
                    Err(e) => { return Err(e); },
                };
                let rv = match self.exec_inner(*r, parser, fuel) {
                    Ok(v) => v,
                    Err(e) => { return Err(e); },
                };
                apply_mul_values(lv, rv, code, span)
            },
            Node::Div(l, r) => {
                let lv = match self.exec_inner(*l, parser, fuel) {
                    Ok(v) => v,
                    Err(e) => { return Err(e); },
                };
                let rv = match self.exec_inner(*r, parser, fuel) {
                    Ok(v) => v,
                    Err(e) => { return Err(e); },
                };
                apply_div_values(lv, rv, code, span)
            },
            Node::Exec(e) => {
                let v = match self.exec_inner(*e, parser, fuel) {
                    Ok(v) => v,
                    Err(er) => { return Err(er); },
                };
                match v {
                    Value::Integer(_) => Err(LanguageError::at(code, span, "can't exec int")),
                    Value::Text(prog) => {
                        if fuel == 0 {
                            Err(LanguageError::at(code, span, "exec depth limit reached"))
                        } else {
                            match parser(prog.as_str()) {
                                Err(pe) => Err(pe),
                                Ok(parsed) => self.exec_inner(parsed, parser, fuel - 1),
                            }
                        }
                    },
                }
            },
            Node::Second(l, r) => {
                match self.exec_inner(*l, parser, fuel) {
                    Ok(_) => {},
                    Err(e) => { return Err(e); },
                };
                self.exec_inner(*r, parser, fuel)
            },
            Node::Show(e) => {
                let v = match self.exec_inner(*e, parser, fuel) {
                    Ok(v) => v,
                    Err(er) => { return Err(er); },
                };
                let (s, count) = shown_text(v);
                host::show_out(s.as_str());
                Ok(count)
            },
            Node::ShowLine(e) => {
                let v = match self.exec_inner(*e, parser, fuel) {
                    Ok(v) => v,
                    Err(er) => { return Err(er); },
                };
                let (s, count) = shown_text(v);
                host::show_line_out(s.as_str());
                Ok(count)
            },
            Node::WriteFile(l, r) => {
                let lv = match self.exec_inner(*l, parser, fuel) {
                    Ok(v) => v,
                    Err(e) => { return Err(e); },
                };
                let rv = match self.exec_inner(*r, parser, fuel) {
                    Ok(v) => v,
                    Err(e) => { return Err(e); },
                };
                match (lv, rv) {
                    (Value::Integer(_), _) => Err(
                        LanguageError::at(code, span, "can't use int as file name"),
                    ),
                    (Value::Text(_), Value::Integer(_)) => Err(
                        LanguageError::at(code, span, "can't write int to file"),
                    ),
                    (Value::Text(name), Value::Text(content)) => {
                        let oc = host::create_file_with(&name, &content);
                        finish_file(oc, &content, code, span)
                    },
                }
            },
            Node::AppendFile(l, r) => {
                let lv = match self.exec_inner(*l, parser, fuel) {
                    Ok(v) => v,
                    Err(e) => { return Err(e); },
                };
                let rv = match self.exec_inner(*r, parser, fuel) {
                    Ok(v) => v,
                    Err(e) => { return Err(e); },
                };
                match (lv, rv) {
                    (Value::Integer(_), _) => Err(
                        LanguageError::at(code, span, "can't use int as file name"),
                    ),
                    (Value::Text(_), Value::Integer(_)) => Err(
                        LanguageError::at(code, span, "can't write int to file"),
                    ),
                    (Value::Text(name), Value::Text(content)) => {
                        let oc = host::append_file_with(&name, &content);
                        finish_file(oc, &content, code, span)
                    },
                }
            },
            Node::ReadFile(e) => {
                let v = match self.exec_inner(*e, parser, fuel) {
                    Ok(v) => v,
                    Err(er) => { return Err(er); },
                };
                match v {
                    Value::Integer(_) => Err(
                        LanguageError::at(code, span, "can't use int as file name"),
                    ),
                    Value::Text(name) => {
                        let oc = host::read_file_text(&name);
                        finish_read(oc, code, span)
                    },
                }
            },
            Node::Define(l, r) => {
                let lv = match self.exec_inner(*l, parser, fuel) {
                    Ok(v) => v,
                    Err(e) => { return Err(e); },
                };
                let rv = match self.exec_inner(*r, parser, fuel) {
                    Ok(v) => v,
                    Err(e) => { return Err(e); },
                };
                match lv {
                    Value::Integer(_) => Err(
                        LanguageError::at(code, span, "can't use int as variable name"),
                    ),
                    Value::Text(name) => {
                        let stored = rv.clone();
                        self.define(name, stored);
                        Ok(rv)
                    },
                }
            },
            Node::Access(e) => {
                let v = match self.exec_inner(*e, parser, fuel) {
                    Ok(v) => v,
                    Err(er) => { return Err(er); },
                };
                match v {
                    Value::Integer(_) => Err(LanguageError::at(code, span, "can't access int")),
                    Value::Text(name) => match self.lookup(&name) {
                        None => Err(LanguageError::at(code, span, "no such variable")),
                        Some(stored) => Ok(stored.clone()),
                    },
                }
            },
            Node::Call(e) => {
                let v = match self.exec_inner(*e, parser, fuel) {
                    Ok(v) => v,
                    Err(er) => { return Err(er); },
                };
                match v {
                    Value::Integer(_) => Err(LanguageError::at(code, span, "can't call int")),
                    Value::Text(name) => {
                        let looked = self.lookup(&name);
                        let prog: String = match looked {
                            None => { return Err(LanguageError::at(code, span, "no such variable")); },
                            Some(Value::Integer(_)) => {
                                return Err(LanguageError::at(code, span, "can't exec int"));
                            },
                            Some(Value::Text(s)) => s.clone(),
                        };
                        if fuel == 0 {
                            Err(LanguageError::at(code, span, "exec depth limit reached"))
                        } else {
                            match parser(prog.as_str()) {
                                Err(pe) => Err(pe),
                                Ok(parsed) => self.exec_inner(parsed, parser, fuel - 1),
                            }
                        }
                    },
                }
            },
            Node::InlineCall(name) => {
                let looked = self.lookup(&name);
                let prog: String = match looked {
                    None => { return Err(LanguageError::at(code, span, "no such variable")); },
                    Some(Value::Integer(_)) => {
                        return Err(LanguageError::at(code, span, "can't exec int"));
                    },
                    Some(Value::Text(s)) => s.clone(),
                };
                if fuel == 0 {
                    Err(LanguageError::at(code, span, "exec depth limit reached"))
                } else {
                    match parser(prog.as_str()) {
                        Err(pe) => Err(pe),
                        Ok(parsed) => self.exec_inner(parsed, parser, fuel - 1),
                    }
                }
            },
            Node::Equal(l, r) => {
                let lv = match self.exec_inner(*l, parser, fuel) {
                    Ok(v) => v,
                    Err(e) => { return Err(e); },
                };
                let rv = match self.exec_inner(*r, parser, fuel) {
                    Ok(v) => v,
                    Err(e) => { return Err(e); },
                };
                apply_equal_values(lv, rv, code, span)
            },
            Node::LessThan(l, r) => {
                let lv = match self.exec_inner(*l, parser, fuel) {
                    Ok(v) => v,
                    Err(e) => { return Err(e); },
                };
                let rv = match self.exec_inner(*r, parser, fuel) {
                    Ok(v) => v,
                    Err(e) => { return Err(e); },
                };
                apply_less_values(lv, rv, code, span)
            },
            Node::Not(e) => {
                let v = match self.exec_inner(*e, parser, fuel) {
                    Ok(v) => v,
                    Err(er) => { return Err(er); },
                };
                apply_not_value(v, code, span)
            },
            Node::And(l, r) => {
                let lv = match self.exec_inner(*l, parser, fuel) {
                    Ok(v) => v,
                    Err(e) => { return Err(e); },
                };
                let rv = match self.exec_inner(*r, parser, fuel) {
                    Ok(v) => v,
                    Err(e) => { return Err(e); },
                };
                apply_and_values(lv, rv, code, span)
            },
        }
    }


    /// Re-enters the pipeline on stored or computed code: refuses with a
    /// recoverable error once the re-entry budget is spent, otherwise hands
    /// the text to the caller's parser and evaluates whatever tree comes
    /// back, with one budget step fewer.
    fn reenter_stored<F: Fn(&str) -> Result<Atom, LanguageError>>(
        &mut self,
        prog: String,
        parser: &F,
        fuel: u64,
        code: u64,
        span: Span,
    ) -> (r: Result<Value, LanguageError>)
        requires
            forall|s: &str| #[trigger] call_requires(*parser, (s,)),
        ensures
            old(self)@.dom().subset_of(final(self)@.dom()),
            fuel == 0 ==> out_view(r) == err_of(code, span, "exec depth limit reached"@)
                && final(self)@ == old(self)@,
            fuel > 0 ==> reentered(*parser, prog@, old(self)@, (fuel - 1) as nat, r, final(self)@),
    {
        if fuel == 0 {
            Err(LanguageError::at(code, span, "exec depth limit reached"))
        } else {
            match parser(prog.as_str()) {
                Err(pe) => Err(pe),
                Ok(parsed) => self.exec_inner(parsed, parser, fuel - 1),
            }
        }
    }

    /// The evaluator: walks the tree, consulting and mutating this session's
    /// environment, and for the homoiconic operators re-enters the pipeline
    /// through the caller's `parser` on a text value.
    ///
    /// `fuel` bounds how deep re-entry may nest; once it is spent, a further
    /// re-entry is refused with a recoverable error in place of the
    /// unbounded host recursion the language would otherwise admit. On the
    /// fragment whose outcome the host does not decide, the result and the
    /// final environment are exactly those of [`eval_pure`]; at the root,
    /// a homoiconic re-entry returns a parse failure untouched or the
    /// parsed tree's own evaluation with one budget step spent, a file
    /// operator whose operands evaluate to text leaves the environment as
    /// they left it and returns the host outcome's mapping, and in every
    /// case the environment keeps each name it already had.
    pub fn exec<F: Fn(&str) -> Result<Atom, LanguageError>>(
        &mut self,
        ast: Atom,
        parser: &F,
        fuel: u64,
    ) -> (r: Result<Value, LanguageError>)
        requires
            forall|s: &str| #[trigger] call_requires(*parser, (s,)),
        ensures
            old(self)@.dom().subset_of(final(self)@.dom()),
            match eval_pure(old(self)@, ast, fuel as nat) {
                Some(out) => out_view(r) == out.0 && final(self)@ == out.1,
                None => true,
            },
            (match ast.node {
                Node::Exec(e) => exec_root_post(
                    *parser,
                    old(self)@,
                    *e,
                    fuel as nat,
                    r,
                    final(self)@,
                ),
                Node::Call(e) => call_root_post(
                    *parser,
                    old(self)@,
                    *e,
                    fuel as nat,
                    r,
                    final(self)@,
                ),
                Node::InlineCall(nm) => inline_root_post(
                    *parser,
                    old(self)@,
                    nm@,
                    fuel as nat,
                    r,
                    final(self)@,
                ),
                Node::ReadFile(op) => read_root_post(
                    old(self)@,
                    *op,
                    fuel as nat,
                    r,
                    final(self)@,
                    ast.code,
                    ast.span,
                ),
                Node::WriteFile(lop, rop) => file_root_post(
                    old(self)@,
                    *lop,
                    *rop,
                    fuel as nat,
                    r,
                    final(self)@,
                    ast.code,
                    ast.span,
                ),
                Node::AppendFile(lop, rop) => file_root_post(
                    old(self)@,
                    *lop,
                    *rop,
                    fuel as nat,
                    r,
                    final(self)@,
                    ast.code,
                    ast.span,
                ),
                _ => true,
            }),
    {
        proof {
            reveal(exec_root_post);
            reveal(call_root_post);
            reveal(inline_root_post);
            reveal(read_root_post);
            reveal(file_root_post);
        }
        let span = ast.span;
        let code = ast.code;
        match ast.node {
            Node::Exec(e) => {
                let v = match self.exec_inner(*e, parser, fuel) {
                    Ok(v) => v,
                    Err(er) => { return Err(er); },
                };
                match v {
                    Value::Integer(_) => Err(LanguageError::at(code, span, "can't exec int")),
                    Value::Text(prog) => self.reenter_stored(prog, parser, fuel, code, span),
                }
            },
            Node::Call(e) => {
                let v = match self.exec_inner(*e, parser, fuel) {
                    Ok(v) => v,
                    Err(er) => { return Err(er); },
                };
                match v {
                    Value::Integer(_) => Err(LanguageError::at(code, span, "can't call int")),
                    Value::Text(name) => {
                        let looked = self.lookup(&name);
                        let prog: String = match looked {
                            None => {
                                return Err(LanguageError::at(code, span, "no such variable"));
                            },
                            Some(Value::Integer(_)) => {
                                return Err(LanguageError::at(code, span, "can't exec int"));
                            },
                            Some(Value::Text(s)) => s.clone(),
                        };
                        self.reenter_stored(prog, parser, fuel, code, span)
                    },
                }
            },
            Node::InlineCall(name) => {
                let looked = self.lookup(&name);
                let prog: String = match looked {
                    None => { return Err(LanguageError::at(code, span, "no such variable")); },
                    Some(Value::Integer(_)) => {
                        return Err(LanguageError::at(code, span, "can't exec int"));
                    },
                    Some(Value::Text(s)) => s.clone(),
                };
                self.reenter_stored(prog, parser, fuel, code, span)
            },
            Node::ReadFile(e) => {
                let v = match self.exec_inner(*e, parser, fuel) {
                    Ok(v) => v,
                    Err(er) => { return Err(er); },
                };
                match v {
                    Value::Integer(_) => Err(
                        LanguageError::at(code, span, "can't use int as file name"),
                    ),
                    Value::Text(name) => {
                        let oc = host::read_file_text(&name);
                        let res = finish_read(oc, code, span);
                        proof {
                            assert(out_view(res) == read_result(oc, code, span));
                        }
                        res
                    },
                }
            },
            Node::WriteFile(l, r) => {
                let lv = match self.exec_inner(*l, parser, fuel) {
                    Ok(v) => v,
                    Err(e) => { return Err(e); },
                };
                let rv = match self.exec_inner(*r, parser, fuel) {
                    Ok(v) => v,
                    Err(e) => { return Err(e); },
                };
                match (lv, rv) {
                    (Value::Integer(_), _) => Err(
                        LanguageError::at(code, span, "can't use int as file name"),
                    ),
                    (Value::Text(_), Value::Integer(_)) => Err(
                        LanguageError::at(code, span, "can't write int to file"),
                    ),
                    (Value::Text(name), Value::Text(content)) => {
                        let oc = host::create_file_with(&name, &content);
                        let res = finish_file(oc, &content, code, span);
                        proof {
                            assert(out_view(res) == file_result(oc, content@, code, span));
                        }
                        res
                    },
                }
            },
            Node::AppendFile(l, r) => {
                let lv = match self.exec_inner(*l, parser, fuel) {
                    Ok(v) => v,
                    Err(e) => { return Err(e); },
                };
                let rv = match self.exec_inner(*r, parser, fuel) {
                    Ok(v) => v,
                    Err(e) => { return Err(e); },
                };
                match (lv, rv) {
                    (Value::Integer(_), _) => Err(
                        LanguageError::at(code, span, "can't use int as file name"),
                    ),
                    (Value::Text(_), Value::Integer(_)) => Err(
                        LanguageError::at(code, span, "can't write int to file"),
                    ),
                    (Value::Text(name), Value::Text(content)) => {
                        let oc = host::append_file_with(&name, &content);
                        let res = finish_file(oc, &content, code, span);
                        proof {
                            assert(out_view(res) == file_result(oc, content@, code, span));
                        }
                        res
                    },
                }
            },
            other => {
                let rebuilt = Atom { code, span, node: other };
                proof {
                    assert(rebuilt == ast);
                }
                self.exec_inner(rebuilt, parser, fuel)
            },
        }
    }

    /// The composed pipeline: hands the source text to the caller's parser
    /// and evaluates whatever tree comes back, in this session's
    /// environment. A parse failure is returned as it came, untouched; an
    /// evaluated tree is bound by [`Context::exec`]'s contract.
    pub fn evaluate_program<F: Fn(&str) -> Result<Atom, LanguageError>>(
        &mut self,
        source: &str,
        parser: &F,
        fuel: u64,
    ) -> (r: Result<Value, LanguageError>)
        requires
            forall|s: &str| #[trigger] call_requires(*parser, (s,)),
        ensures
            old(self)@.dom().subset_of(final(self)@.dom()),
            exists|pr: Result<Atom, LanguageError>|
                {
                    &&& #[trigger] call_ensures(*parser, (source,), pr)
                    &&& match pr {
                        Err(e) => r == Err::<Value, LanguageError>(e) && final(self)@ == old(
                            self,
                        )@,
                        Ok(ast) => match eval_pure(old(self)@, ast, fuel as nat) {
                            Some(out) => out_view(r) == out.0 && final(self)@ == out.1,
                            None => true,
                        },
                    }
                },
    {
        match parser(source) {
            Err(e) => Err(e),
            Ok(ast) => self.exec(ast, parser, fuel),
        }
    }
}

} // verus!
