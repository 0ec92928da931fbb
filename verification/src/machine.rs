//! The mathematical model of the parser: an exact, total description of
//! what one byte does to the machine configuration, and of what a whole
//! parse produces.
//!
//! The executable engine is proved equal to this model, so `spec_parse`
//! is the single statement of the parser's behaviour: the output bytes on
//! success, and the error kind, 1-based line and column, and partial output
//! on failure.
//!
//! The model is total.  Stack shapes that the grammar can never produce
//! (popping an empty stack, appending to a missing list, binding a member
//! with no enclosing object, a list count that would not fit in `usize`)
//! are defined to fail as syntax errors rather than being left unspecified;
//! the executable engine does the same, so it never panics.

use vstd::prelude::*;
use crate::category::Category;
use crate::category::spec_classify;
use crate::codec::hex4_val;
use crate::codec::is_hex;
use crate::codec::is_scalar;
use crate::codec::utf8_enc;
use crate::codec::utf8_ok;
use crate::emit::fmt_term;
use crate::emit::path_m;
use crate::table::Action;
use crate::table::Code;
use crate::table::State;
use crate::table::Trans;
use crate::table::spec_goto;
use crate::table::spec_transition;
use crate::value::MError;
use crate::value::MTerminal;
use crate::value::MValue;

verus! {

/// The mutable data of one parse: value stack, accumulation buffer,
/// escape scratch, and the output emitted so far.
pub ghost struct MData {
    pub ds: Seq<MValue>,
    pub ss: Seq<u8>,
    pub es: Seq<u8>,
    pub out: Seq<u8>,
}

/// A full machine configuration.
pub ghost struct MCfg {
    pub state: State,
    pub stack: Seq<State>,
    pub data: MData,
    pub line: nat,
    pub col: nat,
}

/// The outcome of one semantic action.
pub enum ActRes {
    AOk(MData),
    /// The error kind, and the output as of the failure (an action may have
    /// printed before failing).
    AErr(MError, Seq<u8>),
}

/// The outcome of processing one byte through the transition loop.
pub enum ChainRes {
    COk(State, Seq<State>, MData),
    CErr(MError, Seq<u8>),
}

/// The outcome of processing a prefix of the input.
pub enum PRes {
    POk(MCfg),
    PErr(nat, nat, MError, Seq<u8>),
}

/// The outcome of a whole parse.
pub enum MOut {
    /// Success, with the full output.
    MDone(Seq<u8>),
    /// Failure: line, column, error kind, and the output emitted before
    /// the failure.
    MFail(nat, nat, MError, Seq<u8>),
}

/// The ` = ` separator between a path and its value.
pub open spec fn sp_eq() -> Seq<u8> {
    seq![0x20, 0x3d, 0x20]
}

/// The fragment reported for a bad `\u` escape: `\u` plus the digits.
pub open spec fn u_frag(s: Seq<u8>) -> Seq<u8> {
    seq![0x5c, 0x75] + s
}

/// Resolves the collected `\u` digits.
///
/// Four digits holding a high surrogate (0xD800 to 0xDBFF) stay in the
/// scratch, waiting for the low half; four digits holding any other scalar
/// append its UTF-8 bytes; eight digits must be a high and a low surrogate
/// (0xDC00 to 0xDFFF) and combine by the surrogate-pair formula.  Anything
/// else — a lone low surrogate, a wrong digit count — is an invalid escape.
pub open spec fn resolve_unicode(d: MData) -> ActRes {
    if d.es.len() == 4 {
        let v = hex4_val(d.es);
        if 0xd800 <= v && v <= 0xdbff {
            ActRes::AOk(d)
        } else if is_scalar(v) {
            ActRes::AOk(MData { ds: d.ds, ss: d.ss + utf8_enc(v), es: Seq::empty(), out: d.out })
        } else {
            ActRes::AErr(MError::MInvalidEscape(u_frag(d.es)), d.out)
        }
    } else if d.es.len() == 8 {
        let hi = hex4_val(d.es.take(4));
        let lo = hex4_val(d.es.skip(4));
        if !(0xd800 <= hi && hi <= 0xdbff) {
            ActRes::AErr(MError::MInvalidEscape(u_frag(d.es.take(4))), d.out)
        } else if !(0xdc00 <= lo && lo <= 0xdfff) {
            ActRes::AErr(MError::MInvalidEscape(u_frag(d.es.skip(4))), d.out)
        } else {
            let cp = (0x10000 + (hi - 0xd800) * 0x400 + (lo - 0xdc00)) as nat;
            ActRes::AOk(MData { ds: d.ds, ss: d.ss + utf8_enc(cp), es: Seq::empty(), out: d.out })
        }
    } else {
        ActRes::AErr(MError::MInvalidEscape(u_frag(d.es)), d.out)
    }
}

/// What one semantic action does to the data, given the byte that
/// triggered it.
pub open spec fn do_action_m(a: Action, ch: u8, d: MData) -> ActRes {
    match a {
        Action::PushList => ActRes::AOk(
            MData { ds: d.ds.push(MValue::MList { index: 0 }), ss: d.ss, es: d.es, out: d.out },
        ),
        Action::PushObject => ActRes::AOk(
            MData {
                ds: d.ds.push(MValue::MObject { empty: true }),
                ss: d.ss,
                es: d.es,
                out: d.out,
            },
        ),
        Action::PopAppend => {
            if d.ds.len() == 0 {
                ActRes::AErr(MError::MSyntax, d.out)
            } else {
                let v = d.ds.last();
                let ds1 = d.ds.drop_last();
                let out1 = match v {
                    MValue::MTerm(t) => d.out + path_m(ds1) + sp_eq() + fmt_term(t) + seq![0x0au8],
                    _ => d.out,
                };
                if ds1.len() == 0 {
                    ActRes::AErr(MError::MSyntax, out1)
                } else {
                    match ds1.last() {
                        MValue::MList { index } => if index + 1 <= usize::MAX {
                            ActRes::AOk(
                                MData {
                                    ds: ds1.update(
                                        ds1.len() - 1,
                                        MValue::MList { index: index + 1 },
                                    ),
                                    ss: d.ss,
                                    es: d.es,
                                    out: out1,
                                },
                            )
                        } else {
                            ActRes::AErr(MError::MSyntax, out1)
                        },
                        _ => ActRes::AErr(MError::MSyntax, out1),
                    }
                }
            }
        },
        Action::PopPopBind => {
            if d.ds.len() == 0 {
                ActRes::AErr(MError::MSyntax, d.out)
            } else {
                let v = d.ds.last();
                let ds1 = d.ds.drop_last();
                let out1 = match v {
                    MValue::MTerm(t) => d.out + path_m(ds1) + sp_eq() + fmt_term(t) + seq![0x0au8],
                    MValue::MList { index } => if index == 0 {
                        d.out + path_m(ds1) + sp_eq() + seq![0x5bu8, 0x5d, 0x0a]
                    } else {
                        d.out
                    },
                    MValue::MObject { empty } => if empty {
                        d.out + path_m(ds1) + sp_eq() + seq![0x7bu8, 0x7d, 0x0a]
                    } else {
                        d.out
                    },
                };
                if ds1.len() == 0 {
                    ActRes::AErr(MError::MSyntax, out1)
                } else {
                    let ds2 = ds1.drop_last();
                    if ds2.len() > 0 && (ds2.last() matches MValue::MObject { empty: _ }) {
                        ActRes::AOk(
                            MData {
                                ds: ds2.update(ds2.len() - 1, MValue::MObject { empty: false }),
                                ss: d.ss,
                                es: d.es,
                                out: out1,
                            },
                        )
                    } else {
                        ActRes::AErr(MError::MSyntax, out1)
                    }
                }
            }
        },
        Action::PushNull => ActRes::AOk(
            MData {
                ds: d.ds.push(MValue::MTerm(MTerminal::MNull)),
                ss: d.ss,
                es: d.es,
                out: d.out,
            },
        ),
        Action::PushTrue => ActRes::AOk(
            MData {
                ds: d.ds.push(MValue::MTerm(MTerminal::MBool(true))),
                ss: d.ss,
                es: d.es,
                out: d.out,
            },
        ),
        Action::PushFalse => ActRes::AOk(
            MData {
                ds: d.ds.push(MValue::MTerm(MTerminal::MBool(false))),
                ss: d.ss,
                es: d.es,
                out: d.out,
            },
        ),
        Action::PushString => {
            if utf8_ok(d.ss) {
                ActRes::AOk(
                    MData {
                        ds: d.ds.push(MValue::MTerm(MTerminal::MStr(d.ss))),
                        ss: Seq::empty(),
                        es: Seq::empty(),
                        out: d.out,
                    },
                )
            } else {
                ActRes::AErr(MError::MUnicode, d.out)
            }
        },
        Action::PushNumber => {
            if utf8_ok(d.ss) {
                ActRes::AOk(
                    MData {
                        ds: d.ds.push(MValue::MTerm(MTerminal::MNum(d.ss))),
                        ss: Seq::empty(),
                        es: d.es,
                        out: d.out,
                    },
                )
            } else {
                ActRes::AErr(MError::MUnicode, d.out)
            }
        },
        Action::CharToStr => {
            if d.es.len() > 0 {
                ActRes::AErr(MError::MInvalidEscape(d.es), d.out)
            } else {
                ActRes::AOk(MData { ds: d.ds, ss: d.ss.push(ch), es: d.es, out: d.out })
            }
        },
        Action::CharToEsc => {
            if is_hex(ch) {
                ActRes::AOk(MData { ds: d.ds, ss: d.ss, es: d.es.push(ch), out: d.out })
            } else {
                ActRes::AErr(MError::MInvalidEscape(seq![ch]), d.out)
            }
        },
        Action::SimpleEscape => {
            if ch == 0x62 {
                ActRes::AOk(MData { ds: d.ds, ss: d.ss.push(0x08), es: Seq::empty(), out: d.out })
            } else if ch == 0x74 {
                ActRes::AOk(MData { ds: d.ds, ss: d.ss.push(0x09), es: Seq::empty(), out: d.out })
            } else if ch == 0x6e {
                ActRes::AOk(MData { ds: d.ds, ss: d.ss.push(0x0a), es: Seq::empty(), out: d.out })
            } else if ch == 0x66 {
                ActRes::AOk(MData { ds: d.ds, ss: d.ss.push(0x0c), es: Seq::empty(), out: d.out })
            } else if ch == 0x72 {
                ActRes::AOk(MData { ds: d.ds, ss: d.ss.push(0x0d), es: Seq::empty(), out: d.out })
            } else {
                ActRes::AErr(MError::MInvalidEscape(seq![0x5cu8, ch]), d.out)
            }
        },
        Action::UnicodeEscape => resolve_unicode(d),
    }
}

/// Processes one byte through the transition loop: look up the table,
/// push the goto if asked, handle a completed top-level value (back at the
/// initial state with a value on the stack: emit a separating newline and
/// discard it), run the action, and either enter the next state or pop the
/// control stack and re-process the same byte there.
pub open spec fn run_chain(
    state: State,
    stack: Seq<State>,
    d: MData,
    cat: Category,
    ch: u8,
) -> ChainRes
    decreases stack.len(),
{
    match spec_transition(state, cat) {
        Trans::Halt => ChainRes::CErr(MError::MSyntax, d.out),
        Trans::Step { push, action, code } => {
            let stack1 = if push {
                stack.push(spec_goto(state))
            } else {
                stack
            };
            let d1 = if state == State::Root && d.ds.len() > 0 {
                MData { ds: d.ds.drop_last(), ss: d.ss, es: d.es, out: d.out.push(0x0a) }
            } else {
                d
            };
            let ar = match action {
                Option::None => ActRes::AOk(d1),
                Option::Some(a) => do_action_m(a, ch, d1),
            };
            match ar {
                ActRes::AErr(e, out) => ChainRes::CErr(e, out),
                ActRes::AOk(d2) => match code {
                    Code::To(s2) => ChainRes::COk(s2, stack1, d2),
                    Code::Ret => if push {
                        ChainRes::CErr(MError::MSyntax, d2.out)
                    } else if stack.len() == 0 {
                        ChainRes::CErr(MError::MSyntax, d2.out)
                    } else {
                        run_chain(stack.last(), stack.drop_last(), d2, cat, ch)
                    },
                },
            }
        },
    }
}

/// The configuration at the start of a parse.
pub open spec fn init_cfg() -> MCfg {
    MCfg {
        state: State::Root,
        stack: Seq::empty(),
        data: MData { ds: Seq::empty(), ss: Seq::empty(), es: Seq::empty(), out: Seq::empty() },
        line: 1,
        col: 0,
    }
}

/// The line counter after consuming `ch`.
pub open spec fn next_line(line: nat, ch: u8) -> nat {
    if ch == 0x0a {
        line + 1
    } else {
        line
    }
}

/// The column counter after consuming `ch`.
pub open spec fn next_col(col: nat, ch: u8) -> nat {
    if ch == 0x0a {
        0
    } else {
        col + 1
    }
}

/// Consumes one input byte: update the position, classify, run the chain.
pub open spec fn step_byte(cfg: MCfg, ch: u8) -> PRes {
    let l2 = next_line(cfg.line, ch);
    let c2 = next_col(cfg.col, ch);
    match run_chain(cfg.state, cfg.stack, cfg.data, spec_classify(ch), ch) {
        ChainRes::COk(s2, stk2, d2) => PRes::POk(
            MCfg { state: s2, stack: stk2, data: d2, line: l2, col: c2 },
        ),
        ChainRes::CErr(e, out) => PRes::PErr(l2, c2, e, out),
    }
}

/// The configuration after the first `n` input bytes.
pub open spec fn run_prefix(input: Seq<u8>, n: int) -> PRes
    decreases n,
{
    if n <= 0 {
        PRes::POk(init_cfg())
    } else {
        match run_prefix(input, n - 1) {
            PRes::POk(cfg) => step_byte(cfg, input[n - 1]),
            e => e,
        }
    }
}

/// A failure while processing a prefix is the failure of every longer
/// prefix: the first error aborts the parse.
pub proof fn lemma_perr_persists(input: Seq<u8>, n: int, m: int)
    requires
        0 <= n <= m,
        !(run_prefix(input, n) matches PRes::POk(_)),
    ensures
        run_prefix(input, m) == run_prefix(input, n),
    decreases m - n,
{
    if m > n {
        lemma_perr_persists(input, n, m - 1);
    }
}

/// What a whole parse produces: run every byte, then feed the synthetic
/// end-of-input byte (classified as whitespace); if the machine is not back
/// at the initial state the input was truncated.  The end-of-input step
/// reports errors at the position of the last consumed byte.
pub open spec fn spec_parse(input: Seq<u8>) -> MOut {
    match run_prefix(input, input.len() as int) {
        PRes::PErr(l, c, e, out) => MOut::MFail(l, c, e, out),
        PRes::POk(cfg) => match run_chain(cfg.state, cfg.stack, cfg.data, Category::Ws, 0x3f) {
            ChainRes::CErr(e, out) => MOut::MFail(cfg.line, cfg.col, e, out),
            ChainRes::COk(s2, stk2, d2) => if s2 == State::Root {
                MOut::MDone(d2.out)
            } else {
                MOut::MFail(cfg.line, cfg.col, MError::MTruncated, d2.out)
            },
        },
    }
}

} // verus!
