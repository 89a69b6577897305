//! The syntax tree walked by the evaluator, the runtime values it produces,
//! and the structured error it reports.
//!
//! Every node carries a diagnostic code and a source span, attached by the
//! parser collaborator; they feed diagnostics only, never the semantics.

use vstd::prelude::*;

verus! {

/// A half-open range of positions in the original source text, kept for
/// diagnostics only.
#[derive(Clone, Copy, Debug, PartialEq, Eq, Structural)]
pub struct Span {
    pub start: usize,
    pub end: usize,
}

/// A runtime value: the language knows exactly two kinds, signed integers
/// and text. No implicit conversion between them exists anywhere.
#[derive(Debug)]
pub enum Value {
    Integer(i64),
    Text(String),
}

impl Clone for Value {
    /// A value is always copied whole; the copy carries the same view.
    fn clone(&self) -> (r: Value)
        ensures
            r@ == self@,
    {
        match self {
            Value::Integer(i) => Value::Integer(*i),
            Value::Text(s) => Value::Text(s.clone()),
        }
    }
}

/// The mathematical shape of a [`Value`]: text is a sequence of Unicode
/// scalar values.
pub enum SpecValue {
    Integer(i64),
    Text(Seq<char>),
}

impl View for Value {
    type V = SpecValue;

    open spec fn view(&self) -> SpecValue {
        match self {
            Value::Integer(i) => SpecValue::Integer(*i),
            Value::Text(s) => SpecValue::Text(s@),
        }
    }
}

/// A recoverable evaluation failure: the diagnostic code and span of the
/// node that detected it, and a message naming the offending combination.
#[derive(Debug)]
pub struct LanguageError {
    pub code: u64,
    pub message: String,
    pub span: Span,
}

/// The mathematical shape of a [`LanguageError`].
pub struct SpecError {
    pub code: u64,
    pub message: Seq<char>,
    pub span: Span,
}

impl View for LanguageError {
    type V = SpecError;

    open spec fn view(&self) -> SpecError {
        SpecError { code: self.code, message: self.message@, span: self.span }
    }
}

/// One operator or literal, holding its operand subtrees. The tree is owned
/// top-down; no node is shared between two parents.
#[derive(Debug)]
pub enum Node {
    Const(Value),
    Add(Box<Atom>, Box<Atom>),
    Sub(Box<Atom>, Box<Atom>),
    Mul(Box<Atom>, Box<Atom>),
    Div(Box<Atom>, Box<Atom>),
    Exec(Box<Atom>),
    Second(Box<Atom>, Box<Atom>),
    Show(Box<Atom>),
    ShowLine(Box<Atom>),
    WriteFile(Box<Atom>, Box<Atom>),
    AppendFile(Box<Atom>, Box<Atom>),
    ReadFile(Box<Atom>),
    Define(Box<Atom>, Box<Atom>),
    Access(Box<Atom>),
    Call(Box<Atom>),
    InlineCall(String),
    Equal(Box<Atom>, Box<Atom>),
    LessThan(Box<Atom>, Box<Atom>),
    Not(Box<Atom>),
    And(Box<Atom>, Box<Atom>),
}

/// A syntax-tree node together with the diagnostic code and source span the
/// parser attached to it.
#[derive(Debug)]
pub struct Atom {
    pub code: u64,
    pub span: Span,
    pub node: Node,
}

impl LanguageError {
    /// Builds an error that copies the current node's code and span and
    /// carries the given message.
    pub fn at(code: u64, span: Span, msg: &str) -> (e: LanguageError)
        ensures
            e@ == (SpecError { code, span, message: msg@ }),
    {
        LanguageError { code, message: String::from_str(msg), span }
    }

    /// Renders the error for display: the message, then the span it covers,
    /// both ends in decimal.
    pub fn render(&self) -> (out: String)
        ensures
            out@ == self.message@ + " at "@ + crate::show::dec_rep_nat(self.span.start as nat)
                + ".."@ + crate::show::dec_rep_nat(self.span.end as nat),
    {
        let mut out = self.message.clone();
        out.append(" at ");
        let start = crate::show::decimal_u64(self.span.start as u64);
        out.append(start.as_str());
        out.append("..");
        let end = crate::show::decimal_u64(self.span.end as u64);
        out.append(end.as_str());
        out
    }
}

} // verus!
