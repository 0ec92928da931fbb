//! The value stack's entries and the parser's error kinds, with their
//! mathematical models.
//!
//! The value stack mirrors the path from the document root to the value
//! currently being parsed: object and list markers below, and — transiently —
//! a completed scalar on top.  String and number scalars hold their UTF-8
//! bytes; a number keeps the verbatim text of the literal, never a binary
//! conversion.

use vstd::prelude::*;

verus! {

/// A scalar leaf value: something a line is printed for.
#[derive(Debug)]
pub enum Terminal {
    /// `null`
    Null,
    /// `true` or `false`
    Bool(bool),
    /// A number literal, kept as its verbatim bytes.
    Number(Vec<u8>),
    /// A string, decoded (escapes resolved) and UTF-8 validated, as bytes.
    Str(Vec<u8>),
}

/// One entry of the value stack.
#[derive(Debug)]
pub enum Value {
    /// An object being parsed; `empty` until a member has been bound.
    Object { empty: bool },
    /// A list being parsed; `index` counts the elements appended so far.
    List { index: usize },
    /// A completed scalar, on top of the stack only.
    Terminal(Terminal),
}

/// The parser's error kinds.
#[derive(Debug)]
pub enum JsonError {
    /// The input ended mid-structure.
    Truncated,
    /// No valid transition for the current state and byte.
    Syntax,
    /// A malformed `\` sequence; carries a fragment of the offending text.
    InvalidEscape(Vec<u8>),
    /// String or number bytes failed UTF-8 validation.
    Unicode,
}

/// The model of a scalar.
pub enum MTerminal {
    MNull,
    MBool(bool),
    MNum(Seq<u8>),
    MStr(Seq<u8>),
}

/// The model of a value-stack entry.
pub enum MValue {
    MObject { empty: bool },
    MList { index: nat },
    MTerm(MTerminal),
}

/// The model of an error kind.
pub enum MError {
    MTruncated,
    MSyntax,
    MInvalidEscape(Seq<u8>),
    MUnicode,
}

impl View for Terminal {
    type V = MTerminal;

    open spec fn view(&self) -> MTerminal {
        match self {
            Terminal::Null => MTerminal::MNull,
            Terminal::Bool(b) => MTerminal::MBool(*b),
            Terminal::Number(v) => MTerminal::MNum(v@),
            Terminal::Str(v) => MTerminal::MStr(v@),
        }
    }
}

impl View for Value {
    type V = MValue;

    open spec fn view(&self) -> MValue {
        match self {
            Value::Object { empty } => MValue::MObject { empty: *empty },
            Value::List { index } => MValue::MList { index: *index as nat },
            Value::Terminal(t) => MValue::MTerm(t@),
        }
    }
}

impl View for JsonError {
    type V = MError;

    open spec fn view(&self) -> MError {
        match self {
            JsonError::Truncated => MError::MTruncated,
            JsonError::Syntax => MError::MSyntax,
            JsonError::InvalidEscape(v) => MError::MInvalidEscape(v@),
            JsonError::Unicode => MError::MUnicode,
        }
    }
}

/// The model of a whole value stack.
pub open spec fn vds(ds: Seq<Value>) -> Seq<MValue> {
    ds.map_values(|v: Value| v@)
}

} // verus!
