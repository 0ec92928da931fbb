//! The pushdown-automaton tables: states, semantic actions, and the
//! transition function.
//!
//! For each (state, category) pair the table yields either `Halt` (no valid
//! transition: a syntax error) or a step holding an optional semantic action,
//! a push flag, and a code.  When the push flag is set, the goto of the
//! current state is pushed onto the control stack before the action runs.
//! The code is either a concrete next state (the byte is consumed) or `Ret`:
//! pop the control stack and re-consult the table on the same byte in the
//! popped state, so that a byte which finishes a construct (a delimiter after
//! a number, a bracket that also completes a pending append) can be processed
//! again in the enclosing context.

use vstd::prelude::*;
use crate::category::Category;

verus! {

/// A position in the automaton.
#[derive(Clone, Copy, Debug, PartialEq, Eq, Structural)]
pub enum State {
    /// Expecting a top-level value, or end of input.  The initial state.
    Root,
    /// After `{`: expecting the first key or `}`.
    ObjFirst,
    /// After a key string: expecting `:`.
    ObjColon,
    /// After `:`: expecting a member value.
    ObjVal,
    /// A member value has just completed: expecting `,` or `}`.
    ObjMemberDone,
    /// After `,` inside an object: expecting the next key.
    ObjNext,
    /// After `[`: expecting the first element or `]`.
    ArrFirst,
    /// An element has just completed: expecting `,` or `]`.
    ArrTail,
    /// After `,` inside an array: expecting the next element.
    ArrNext,
    /// Inside a string literal.
    Str,
    /// After `\` inside a string.
    Esc,
    /// After `\u`: expecting the first hex digit.
    U0,
    /// Expecting the second hex digit.
    U1,
    /// Expecting the third hex digit.
    U2,
    /// Expecting the fourth hex digit.
    U3,
    /// All four digits collected: resolve the escape on the same byte.
    UniResolve,
    /// After a leading `-`.
    NumMinus,
    /// After a leading `0`.
    NumZero,
    /// Inside the integer part.
    NumInt,
    /// After the decimal point.
    NumDot,
    /// Inside the fractional part.
    NumFrac,
    /// After `e` or `E`.
    NumExpMark,
    /// After the exponent sign.
    NumExpSign,
    /// Inside the exponent digits.
    NumExp,
    /// Inside `true`: expecting `r`.
    TrueR,
    /// Inside `true`: expecting `u`.
    TrueU,
    /// Inside `true`: expecting `e`.
    TrueE,
    /// Inside `false`: expecting `a`.
    FalseA,
    /// Inside `false`: expecting `l`.
    FalseL,
    /// Inside `false`: expecting `s`.
    FalseS,
    /// Inside `false`: expecting `e`.
    FalseE,
    /// Inside `null`: expecting `u`.
    NullU,
    /// Inside `null`: expecting the first `l`.
    NullL1,
    /// Inside `null`: expecting the second `l`.
    NullL2,
    /// A value has just completed; the next byte returns to the enclosing
    /// context through the control stack.
    Done,
}

/// A semantic action, run with the byte that triggered it.
#[derive(Clone, Copy, Debug, PartialEq, Eq, Structural)]
pub enum Action {
    /// Push an empty list marker onto the value stack.
    PushList,
    /// Push an empty object marker onto the value stack.
    PushObject,
    /// Pop the completed element; print it if it is a scalar; count it in
    /// the list now on top.
    PopAppend,
    /// Pop the completed member value and its key; print the value if it is
    /// a scalar or an empty container; mark the enclosing object non-empty.
    PopPopBind,
    /// Push a `null` scalar.
    PushNull,
    /// Push a `true` scalar.
    PushTrue,
    /// Push a `false` scalar.
    PushFalse,
    /// Finalize the accumulation buffer as a string scalar (UTF-8 checked).
    PushString,
    /// Finalize the accumulation buffer as a number scalar, kept verbatim.
    PushNumber,
    /// Append the byte to the accumulation buffer; a pending unresolved
    /// escape fragment makes this an invalid-escape error.
    CharToStr,
    /// Append a hex digit to the escape scratch; any other byte is an
    /// invalid-escape error.
    CharToEsc,
    /// Resolve a single-letter escape (`b t n f r`).
    SimpleEscape,
    /// Resolve the collected `\u` digits (with surrogate-pair reassembly).
    UnicodeEscape,
}

/// Where a transition goes after its action.
#[derive(Clone, Copy, Debug, PartialEq, Eq, Structural)]
pub enum Code {
    /// Enter this state; the byte is consumed.
    To(State),
    /// Pop the control stack and re-process the same byte there.
    Ret,
}

/// One entry of the transition table.
#[derive(Clone, Copy, Debug, PartialEq, Eq, Structural)]
pub enum Trans {
    /// No valid transition: a syntax error at this byte.
    Halt,
    /// Push the goto of the current state if `push` is set, run `action`
    /// if any, then follow `code`.
    Step { push: bool, action: Option<Action>, code: Code },
}

/// A step that only moves to `s`.
pub open spec fn skip_to(s: State) -> Trans {
    Trans::Step { push: false, action: None, code: Code::To(s) }
}

/// A step that runs `a` and moves to `s`.
pub open spec fn act_to(a: Action, s: State) -> Trans {
    Trans::Step { push: false, action: Some(a), code: Code::To(s) }
}

/// A step that runs `a` and then pops the control stack.
pub open spec fn act_ret(a: Action) -> Trans {
    Trans::Step { push: false, action: Some(a), code: Code::Ret }
}

/// A step that enters a nested construct: the goto of the current state is
/// pushed first.
pub open spec fn enter(a: Option<Action>, s: State) -> Trans {
    Trans::Step { push: true, action: a, code: Code::To(s) }
}

/// The table entries shared by every state that expects a value: the opening
/// byte pushes the current state's goto and starts the construct.
pub open spec fn value_start(c: Category) -> Trans {
    match c {
        Category::LBrace => enter(Some(Action::PushObject), State::ObjFirst),
        Category::LBrack => enter(Some(Action::PushList), State::ArrFirst),
        Category::Quote => enter(None, State::Str),
        Category::Minus => enter(Some(Action::CharToStr), State::NumMinus),
        Category::Zero => enter(Some(Action::CharToStr), State::NumZero),
        Category::Digit => enter(Some(Action::CharToStr), State::NumInt),
        Category::LowT => enter(None, State::TrueR),
        Category::LowF => enter(None, State::FalseA),
        Category::LowN => enter(None, State::NullU),
        _ => Trans::Halt,
    }
}

/// The transition table: the whole JSON grammar.
pub open spec fn spec_transition(s: State, c: Category) -> Trans {
    match s {
        State::Root => match c {
            Category::Ws => skip_to(State::Root),
            _ => value_start(c),
        },
        State::ObjFirst => match c {
            Category::Ws => skip_to(State::ObjFirst),
            Category::RBrace => skip_to(State::Done),
            Category::Quote => enter(None, State::Str),
            _ => Trans::Halt,
        },
        State::ObjColon => match c {
            Category::Ws => skip_to(State::ObjColon),
            Category::Colon => skip_to(State::ObjVal),
            _ => Trans::Halt,
        },
        State::ObjVal => match c {
            Category::Ws => skip_to(State::ObjVal),
            _ => value_start(c),
        },
        State::ObjMemberDone => match c {
            Category::Ws => skip_to(State::ObjMemberDone),
            Category::Comma => act_to(Action::PopPopBind, State::ObjNext),
            Category::RBrace => act_to(Action::PopPopBind, State::Done),
            _ => Trans::Halt,
        },
        State::ObjNext => match c {
            Category::Ws => skip_to(State::ObjNext),
            Category::Quote => enter(None, State::Str),
            _ => Trans::Halt,
        },
        State::ArrFirst => match c {
            Category::Ws => skip_to(State::ArrFirst),
            Category::RBrack => skip_to(State::Done),
            _ => value_start(c),
        },
        State::ArrTail => match c {
            Category::Ws => skip_to(State::ArrTail),
            Category::Comma => act_to(Action::PopAppend, State::ArrNext),
            Category::RBrack => act_to(Action::PopAppend, State::Done),
            _ => Trans::Halt,
        },
        State::ArrNext => match c {
            Category::Ws => skip_to(State::ArrNext),
            _ => value_start(c),
        },
        State::Str => match c {
            Category::Quote => act_to(Action::PushString, State::Done),
            Category::Backslash => skip_to(State::Esc),
            _ => act_to(Action::CharToStr, State::Str),
        },
        State::Esc => match c {
            Category::Quote => act_to(Action::CharToStr, State::Str),
            Category::Backslash => act_to(Action::CharToStr, State::Str),
            Category::Slash => act_to(Action::CharToStr, State::Str),
            Category::LowU => enter(None, State::U0),
            _ => act_to(Action::SimpleEscape, State::Str),
        },
        State::U0 => act_to(Action::CharToEsc, State::U1),
        State::U1 => act_to(Action::CharToEsc, State::U2),
        State::U2 => act_to(Action::CharToEsc, State::U3),
        State::U3 => act_ret(Action::CharToEsc),
        State::UniResolve => act_to(Action::UnicodeEscape, State::Str),
        State::NumMinus => match c {
            Category::Zero => act_to(Action::CharToStr, State::NumZero),
            Category::Digit => act_to(Action::CharToStr, State::NumInt),
            _ => Trans::Halt,
        },
        State::NumZero => match c {
            Category::Dot => act_to(Action::CharToStr, State::NumDot),
            Category::LowE | Category::UpE => act_to(Action::CharToStr, State::NumExpMark),
            Category::Ws | Category::Comma | Category::RBrack | Category::RBrace =>
                act_ret(Action::PushNumber),
            _ => Trans::Halt,
        },
        State::NumInt => match c {
            Category::Zero | Category::Digit => act_to(Action::CharToStr, State::NumInt),
            Category::Dot => act_to(Action::CharToStr, State::NumDot),
            Category::LowE | Category::UpE => act_to(Action::CharToStr, State::NumExpMark),
            Category::Ws | Category::Comma | Category::RBrack | Category::RBrace =>
                act_ret(Action::PushNumber),
            _ => Trans::Halt,
        },
        State::NumDot => match c {
            Category::Zero | Category::Digit => act_to(Action::CharToStr, State::NumFrac),
            _ => Trans::Halt,
        },
        State::NumFrac => match c {
            Category::Zero | Category::Digit => act_to(Action::CharToStr, State::NumFrac),
            Category::LowE | Category::UpE => act_to(Action::CharToStr, State::NumExpMark),
            Category::Ws | Category::Comma | Category::RBrack | Category::RBrace =>
                act_ret(Action::PushNumber),
            _ => Trans::Halt,
        },
        State::NumExpMark => match c {
            Category::Plus | Category::Minus => act_to(Action::CharToStr, State::NumExpSign),
            Category::Zero | Category::Digit => act_to(Action::CharToStr, State::NumExp),
            _ => Trans::Halt,
        },
        State::NumExpSign => match c {
            Category::Zero | Category::Digit => act_to(Action::CharToStr, State::NumExp),
            _ => Trans::Halt,
        },
        State::NumExp => match c {
            Category::Zero | Category::Digit => act_to(Action::CharToStr, State::NumExp),
            Category::Ws | Category::Comma | Category::RBrack | Category::RBrace =>
                act_ret(Action::PushNumber),
            _ => Trans::Halt,
        },
        State::TrueR => match c {
            Category::LowR => skip_to(State::TrueU),
            _ => Trans::Halt,
        },
        State::TrueU => match c {
            Category::LowU => skip_to(State::TrueE),
            _ => Trans::Halt,
        },
        State::TrueE => match c {
            Category::LowE => act_to(Action::PushTrue, State::Done),
            _ => Trans::Halt,
        },
        State::FalseA => match c {
            Category::LowA => skip_to(State::FalseL),
            _ => Trans::Halt,
        },
        State::FalseL => match c {
            Category::LowL => skip_to(State::FalseS),
            _ => Trans::Halt,
        },
        State::FalseS => match c {
            Category::LowS => skip_to(State::FalseE),
            _ => Trans::Halt,
        },
        State::FalseE => match c {
            Category::LowE => act_to(Action::PushFalse, State::Done),
            _ => Trans::Halt,
        },
        State::NullU => match c {
            Category::LowU => skip_to(State::NullL1),
            _ => Trans::Halt,
        },
        State::NullL1 => match c {
            Category::LowL => skip_to(State::NullL2),
            _ => Trans::Halt,
        },
        State::NullL2 => match c {
            Category::LowL => act_to(Action::PushNull, State::Done),
            _ => Trans::Halt,
        },
        State::Done => Trans::Step { push: false, action: None, code: Code::Ret },
    }
}

/// The state to return to after a construct entered from `s` completes.
pub open spec fn spec_goto(s: State) -> State {
    match s {
        State::Root => State::Root,
        State::ObjFirst => State::ObjColon,
        State::ObjNext => State::ObjColon,
        State::ObjVal => State::ObjMemberDone,
        State::ArrFirst => State::ArrTail,
        State::ArrNext => State::ArrTail,
        State::Esc => State::UniResolve,
        _ => State::Root,
    }
}

/// Looks up the transition for (state, category).
pub fn transition(s: State, c: Category) -> (t: Trans)
    ensures
        t == spec_transition(s, c),
{
    match s {
        State::Root => match c {
            Category::Ws => Trans::Step { push: false, action: None, code: Code::To(State::Root) },
            _ => value_start_x(c),
        },
        State::ObjFirst => match c {
            Category::Ws => Trans::Step {
                push: false,
                action: None,
                code: Code::To(State::ObjFirst),
            },
            Category::RBrace => Trans::Step {
                push: false,
                action: None,
                code: Code::To(State::Done),
            },
            Category::Quote => Trans::Step { push: true, action: None, code: Code::To(State::Str) },
            _ => Trans::Halt,
        },
        State::ObjColon => match c {
            Category::Ws => Trans::Step {
                push: false,
                action: None,
                code: Code::To(State::ObjColon),
            },
            Category::Colon => Trans::Step {
                push: false,
                action: None,
                code: Code::To(State::ObjVal),
            },
            _ => Trans::Halt,
        },
        State::ObjVal => match c {
            Category::Ws => Trans::Step { push: false, action: None, code: Code::To(State::ObjVal) },
            _ => value_start_x(c),
        },
        State::ObjMemberDone => match c {
            Category::Ws => Trans::Step {
                push: false,
                action: None,
                code: Code::To(State::ObjMemberDone),
            },
            Category::Comma => Trans::Step {
                push: false,
                action: Some(Action::PopPopBind),
                code: Code::To(State::ObjNext),
            },
            Category::RBrace => Trans::Step {
                push: false,
                action: Some(Action::PopPopBind),
                code: Code::To(State::Done),
            },
            _ => Trans::Halt,
        },
        State::ObjNext => match c {
            Category::Ws => Trans::Step {
                push: false,
                action: None,
                code: Code::To(State::ObjNext),
            },
            Category::Quote => Trans::Step { push: true, action: None, code: Code::To(State::Str) },
            _ => Trans::Halt,
        },
        State::ArrFirst => match c {
            Category::Ws => Trans::Step {
                push: false,
                action: None,
                code: Code::To(State::ArrFirst),
            },
            Category::RBrack => Trans::Step {
                push: false,
                action: None,
                code: Code::To(State::Done),
            },
            _ => value_start_x(c),
        },
        State::ArrTail => match c {
            Category::Ws => Trans::Step {
                push: false,
                action: None,
                code: Code::To(State::ArrTail),
            },
            Category::Comma => Trans::Step {
                push: false,
                action: Some(Action::PopAppend),
                code: Code::To(State::ArrNext),
            },
            Category::RBrack => Trans::Step {
                push: false,
                action: Some(Action::PopAppend),
                code: Code::To(State::Done),
            },
            _ => Trans::Halt,
        },
        State::ArrNext => match c {
            Category::Ws => Trans::Step {
                push: false,
                action: None,
                code: Code::To(State::ArrNext),
            },
            _ => value_start_x(c),
        },
        State::Str => match c {
            Category::Quote => Trans::Step {
                push: false,
                action: Some(Action::PushString),
                code: Code::To(State::Done),
            },
            Category::Backslash => Trans::Step {
                push: false,
                action: None,
                code: Code::To(State::Esc),
            },
            _ => Trans::Step {
                push: false,
                action: Some(Action::CharToStr),
                code: Code::To(State::Str),
            },
        },
        State::Esc => match c {
            Category::Quote | Category::Backslash | Category::Slash => Trans::Step {
                push: false,
                action: Some(Action::CharToStr),
                code: Code::To(State::Str),
            },
            Category::LowU => Trans::Step { push: true, action: None, code: Code::To(State::U0) },
            _ => Trans::Step {
                push: false,
                action: Some(Action::SimpleEscape),
                code: Code::To(State::Str),
            },
        },
        State::U0 => Trans::Step {
            push: false,
            action: Some(Action::CharToEsc),
            code: Code::To(State::U1),
        },
        State::U1 => Trans::Step {
            push: false,
            action: Some(Action::CharToEsc),
            code: Code::To(State::U2),
        },
        State::U2 => Trans::Step {
            push: false,
            action: Some(Action::CharToEsc),
            code: Code::To(State::U3),
        },
        State::U3 => Trans::Step { push: false, action: Some(Action::CharToEsc), code: Code::Ret },
        State::UniResolve => Trans::Step {
            push: false,
            action: Some(Action::UnicodeEscape),
            code: Code::To(State::Str),
        },
        State::NumMinus => match c {
            Category::Zero => Trans::Step {
                push: false,
                action: Some(Action::CharToStr),
                code: Code::To(State::NumZero),
            },
            Category::Digit => Trans::Step {
                push: false,
                action: Some(Action::CharToStr),
                code: Code::To(State::NumInt),
            },
            _ => Trans::Halt,
        },
        State::NumZero => match c {
            Category::Dot => Trans::Step {
                push: false,
                action: Some(Action::CharToStr),
                code: Code::To(State::NumDot),
            },
            Category::LowE | Category::UpE => Trans::Step {
                push: false,
                action: Some(Action::CharToStr),
                code: Code::To(State::NumExpMark),
            },
            Category::Ws | Category::Comma | Category::RBrack | Category::RBrace => Trans::Step {
                push: false,
                action: Some(Action::PushNumber),
                code: Code::Ret,
            },
            _ => Trans::Halt,
        },
        State::NumInt => match c {
            Category::Zero | Category::Digit => Trans::Step {
                push: false,
                action: Some(Action::CharToStr),
                code: Code::To(State::NumInt),
            },
            Category::Dot => Trans::Step {
                push: false,
                action: Some(Action::CharToStr),
                code: Code::To(State::NumDot),
            },
            Category::LowE | Category::UpE => Trans::Step {
                push: false,
                action: Some(Action::CharToStr),
                code: Code::To(State::NumExpMark),
            },
            Category::Ws | Category::Comma | Category::RBrack | Category::RBrace => Trans::Step {
                push: false,
                action: Some(Action::PushNumber),
                code: Code::Ret,
            },
            _ => Trans::Halt,
        },
        State::NumDot => match c {
            Category::Zero | Category::Digit => Trans::Step {
                push: false,
                action: Some(Action::CharToStr),
                code: Code::To(State::NumFrac),
            },
            _ => Trans::Halt,
        },
        State::NumFrac => match c {
            Category::Zero | Category::Digit => Trans::Step {
                push: false,
                action: Some(Action::CharToStr),
                code: Code::To(State::NumFrac),
            },
            Category::LowE | Category::UpE => Trans::Step {
                push: false,
                action: Some(Action::CharToStr),
                code: Code::To(State::NumExpMark),
            },
            Category::Ws | Category::Comma | Category::RBrack | Category::RBrace => Trans::Step {
                push: false,
                action: Some(Action::PushNumber),
                code: Code::Ret,
            },
            _ => Trans::Halt,
        },
        State::NumExpMark => match c {
            Category::Plus | Category::Minus => Trans::Step {
                push: false,
                action: Some(Action::CharToStr),
                code: Code::To(State::NumExpSign),
            },
            Category::Zero | Category::Digit => Trans::Step {
                push: false,
                action: Some(Action::CharToStr),
                code: Code::To(State::NumExp),
            },
            _ => Trans::Halt,
        },
        State::NumExpSign => match c {
            Category::Zero | Category::Digit => Trans::Step {
                push: false,
                action: Some(Action::CharToStr),
                code: Code::To(State::NumExp),
            },
            _ => Trans::Halt,
        },
        State::NumExp => match c {
            Category::Zero | Category::Digit => Trans::Step {
                push: false,
                action: Some(Action::CharToStr),
                code: Code::To(State::NumExp),
            },
            Category::Ws | Category::Comma | Category::RBrack | Category::RBrace => Trans::Step {
                push: false,
                action: Some(Action::PushNumber),
                code: Code::Ret,
            },
            _ => Trans::Halt,
        },
        State::TrueR => match c {
            Category::LowR => Trans::Step {
                push: false,
                action: None,
                code: Code::To(State::TrueU),
            },
            _ => Trans::Halt,
        },
        State::TrueU => match c {
            Category::LowU => Trans::Step {
                push: false,
                action: None,
                code: Code::To(State::TrueE),
            },
            _ => Trans::Halt,
        },
        State::TrueE => match c {
            Category::LowE => Trans::Step {
                push: false,
                action: Some(Action::PushTrue),
                code: Code::To(State::Done),
            },
            _ => Trans::Halt,
        },
        State::FalseA => match c {
            Category::LowA => Trans::Step {
                push: false,
                action: None,
                code: Code::To(State::FalseL),
            },
            _ => Trans::Halt,
        },
        State::FalseL => match c {
            Category::LowL => Trans::Step {
                push: false,
                action: None,
                code: Code::To(State::FalseS),
            },
            _ => Trans::Halt,
        },
        State::FalseS => match c {
            Category::LowS => Trans::Step {
                push: false,
                action: None,
                code: Code::To(State::FalseE),
            },
            _ => Trans::Halt,
        },
        State::FalseE => match c {
            Category::LowE => Trans::Step {
                push: false,
                action: Some(Action::PushFalse),
                code: Code::To(State::Done),
            },
            _ => Trans::Halt,
        },
        State::NullU => match c {
            Category::LowU => Trans::Step {
                push: false,
                action: None,
                code: Code::To(State::NullL1),
            },
            _ => Trans::Halt,
        },
        State::NullL1 => match c {
            Category::LowL => Trans::Step {
                push: false,
                action: None,
                code: Code::To(State::NullL2),
            },
            _ => Trans::Halt,
        },
        State::NullL2 => match c {
            Category::LowL => Trans::Step {
                push: false,
                action: Some(Action::PushNull),
                code: Code::To(State::Done),
            },
            _ => Trans::Halt,
        },
        State::Done => Trans::Step { push: false, action: None, code: Code::Ret },
    }
}

/// Looks up the value-start entry shared by the value-expecting states.
fn value_start_x(c: Category) -> (t: Trans)
    ensures
        t == value_start(c),
{
    match c {
        Category::LBrace => Trans::Step {
            push: true,
            action: Some(Action::PushObject),
            code: Code::To(State::ObjFirst),
        },
        Category::LBrack => Trans::Step {
            push: true,
            action: Some(Action::PushList),
            code: Code::To(State::ArrFirst),
        },
        Category::Quote => Trans::Step { push: true, action: None, code: Code::To(State::Str) },
        Category::Minus => Trans::Step {
            push: true,
            action: Some(Action::CharToStr),
            code: Code::To(State::NumMinus),
        },
        Category::Zero => Trans::Step {
            push: true,
            action: Some(Action::CharToStr),
            code: Code::To(State::NumZero),
        },
        Category::Digit => Trans::Step {
            push: true,
            action: Some(Action::CharToStr),
            code: Code::To(State::NumInt),
        },
        Category::LowT => Trans::Step { push: true, action: None, code: Code::To(State::TrueR) },
        Category::LowF => Trans::Step { push: true, action: None, code: Code::To(State::FalseA) },
        Category::LowN => Trans::Step { push: true, action: None, code: Code::To(State::NullU) },
        _ => Trans::Halt,
    }
}

/// Looks up the goto of `s`.
pub fn goto_of(s: State) -> (g: State)
    ensures
        g == spec_goto(s),
{
    match s {
        State::Root => State::Root,
        State::ObjFirst => State::ObjColon,
        State::ObjNext => State::ObjColon,
        State::ObjVal => State::ObjMemberDone,
        State::ArrFirst => State::ArrTail,
        State::ArrNext => State::ArrTail,
        State::Esc => State::UniResolve,
        _ => State::Root,
    }
}

} // verus!
