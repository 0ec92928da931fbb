//! The executable parser engine, proved equal to the model in `machine`.
//!
//! `parse` drives bytes one at a time through `parse_ch`, which walks the
//! transition table (possibly re-processing one byte through the control
//! stack) and dispatches semantic actions to `do_action`.

use vstd::prelude::*;
use crate::category::Category;
use crate::category::classify;
use crate::codec::check_utf8;
use crate::codec::hex4;
use crate::codec::hex_digit;
use crate::codec::push_bytes;
use crate::codec::push_utf8;
use crate::emit::format_terminal;
use crate::emit::print_path;
use crate::machine::ActRes;
use crate::machine::ChainRes;
use crate::machine::MCfg;
use crate::machine::MData;
use crate::machine::MOut;
use crate::machine::PRes;
use crate::machine::do_action_m;
use crate::machine::init_cfg;
use crate::machine::run_chain;
use crate::machine::run_prefix;
use crate::machine::spec_parse;
use crate::machine::step_byte;
use crate::table::Action;
use crate::table::Code;
use crate::table::State;
use crate::table::Trans;
use crate::table::goto_of;
use crate::table::transition;
use crate::value::JsonError;
use crate::value::Terminal;
use crate::value::Value;
use crate::value::vds;

verus! {

/// Runs one semantic action with the byte that triggered it, mutating the
/// value stack, the accumulation buffers and the output exactly as the
/// model's `do_action_m` says.
pub fn do_action(
    action: Action,
    ch: u8,
    ds: &mut Vec<Value>,
    ss: &mut Vec<u8>,
    es: &mut Vec<u8>,
    output: &mut Vec<u8>,
) -> (r: Result<(), JsonError>)
    ensures
        (match do_action_m(
            action,
            ch,
            MData { ds: vds(old(ds)@), ss: old(ss)@, es: old(es)@, out: old(output)@ },
        ) {
            ActRes::AOk(d2) => r is Ok && vds(final(ds)@) == d2.ds && final(ss)@ == d2.ss
                && final(es)@ == d2.es && final(output)@ == d2.out,
            ActRes::AErr(e, out2) => (r matches Err(je) && je@ == e) && final(output)@ == out2,
        }),
{
    let ghost d0 = MData { ds: vds(old(ds)@), ss: old(ss)@, es: old(es)@, out: old(output)@ };
    match action {
        Action::PushList => {
            ds.push(Value::List { index: 0 });
            proof {
                assert(vds(ds@) =~= d0.ds.push(crate::value::MValue::MList { index: 0 }));
            }
            Ok(())
        },
        Action::PushObject => {
            ds.push(Value::Object { empty: true });
            proof {
                assert(vds(ds@) =~= d0.ds.push(crate::value::MValue::MObject { empty: true }));
            }
            Ok(())
        },
        Action::PopAppend => {
            match ds.pop() {
                None => Err(JsonError::Syntax),
                Some(v) => {
                    proof {
                        assert(v@ == d0.ds.last());
                        assert(vds(ds@) =~= d0.ds.drop_last());
                    }
                    if let Value::Terminal(t) = &v {
                        print_path(ds, output);
                        output.push(0x20);
                        output.push(0x3d);
                        output.push(0x20);
                        format_terminal(t, output);
                        output.push(0x0a);
                        proof {
                            assert(output@ =~= d0.out + crate::emit::path_m(vds(ds@))
                                + crate::machine::sp_eq() + crate::emit::fmt_term(t@)
                                + seq![0x0au8]);
                        }
                    }
                    match ds.pop() {
                        Some(Value::List { index }) => {
                            if index < usize::MAX {
                                let ghost ds1 = d0.ds.drop_last();
                                ds.push(Value::List { index: index + 1 });
                                proof {
                                    assert(vds(ds@) =~= ds1.update(
                                        ds1.len() - 1,
                                        crate::value::MValue::MList {
                                            index: (index + 1) as nat,
                                        },
                                    ));
                                }
                                Ok(())
                            } else {
                                Err(JsonError::Syntax)
                            }
                        },
                        Some(_) => Err(JsonError::Syntax),
                        None => Err(JsonError::Syntax),
                    }
                },
            }
        },
        Action::PopPopBind => {
            match ds.pop() {
                None => Err(JsonError::Syntax),
                Some(v) => {
                    proof {
                        assert(v@ == d0.ds.last());
                        assert(vds(ds@) =~= d0.ds.drop_last());
                    }
                    let print_empty: Option<(u8, u8)> = match &v {
                        Value::Terminal(t) => None,
                        Value::List { index } => if *index == 0 {
                            Some((0x5b, 0x5d))
                        } else {
                            None
                        },
                        Value::Object { empty } => if *empty {
                            Some((0x7b, 0x7d))
                        } else {
                            None
                        },
                    };
                    if let Value::Terminal(t) = &v {
                        print_path(ds, output);
                        output.push(0x20);
                        output.push(0x3d);
                        output.push(0x20);
                        format_terminal(t, output);
                        output.push(0x0a);
                        proof {
                            assert(output@ =~= d0.out + crate::emit::path_m(vds(ds@))
                                + crate::machine::sp_eq() + crate::emit::fmt_term(t@)
                                + seq![0x0au8]);
                        }
                    } else if let Some((open, close)) = print_empty {
                        print_path(ds, output);
                        output.push(0x20);
                        output.push(0x3d);
                        output.push(0x20);
                        output.push(open);
                        output.push(close);
                        output.push(0x0a);
                        proof {
                            assert(output@ =~= d0.out + crate::emit::path_m(vds(ds@))
                                + crate::machine::sp_eq() + seq![open, close, 0x0au8]);
                        }
                    }
                    match ds.pop() {
                        None => Err(JsonError::Syntax),
                        Some(_key) => {
                            proof {
                                assert(vds(ds@) =~= d0.ds.drop_last().drop_last());
                            }
                            match ds.pop() {
                                Some(Value::Object { empty: _ }) => {
                                    let ghost ds2 = d0.ds.drop_last().drop_last();
                                    ds.push(Value::Object { empty: false });
                                    proof {
                                        assert(vds(ds@) =~= ds2.update(
                                            ds2.len() - 1,
                                            crate::value::MValue::MObject { empty: false },
                                        ));
                                    }
                                    Ok(())
                                },
                                Some(_) => Err(JsonError::Syntax),
                                None => Err(JsonError::Syntax),
                            }
                        },
                    }
                },
            }
        },
        Action::PushNull => {
            ds.push(Value::Terminal(Terminal::Null));
            proof {
                assert(vds(ds@) =~= d0.ds.push(
                    crate::value::MValue::MTerm(crate::value::MTerminal::MNull),
                ));
            }
            Ok(())
        },
        Action::PushTrue => {
            ds.push(Value::Terminal(Terminal::Bool(true)));
            proof {
                assert(vds(ds@) =~= d0.ds.push(
                    crate::value::MValue::MTerm(crate::value::MTerminal::MBool(true)),
                ));
            }
            Ok(())
        },
        Action::PushFalse => {
            ds.push(Value::Terminal(Terminal::Bool(false)));
            proof {
                assert(vds(ds@) =~= d0.ds.push(
                    crate::value::MValue::MTerm(crate::value::MTerminal::MBool(false)),
                ));
            }
            Ok(())
        },
        Action::PushString => {
            if check_utf8(ss) {
                let mut taken: Vec<u8> = Vec::new();
                core::mem::swap(ss, &mut taken);
                ds.push(Value::Terminal(Terminal::Str(taken)));
                es.clear();
                proof {
                    assert(vds(ds@) =~= d0.ds.push(
                        crate::value::MValue::MTerm(crate::value::MTerminal::MStr(d0.ss)),
                    ));
                }
                Ok(())
            } else {
                Err(JsonError::Unicode)
            }
        },
        Action::PushNumber => {
            if check_utf8(ss) {
                let mut taken: Vec<u8> = Vec::new();
                core::mem::swap(ss, &mut taken);
                ds.push(Value::Terminal(Terminal::Number(taken)));
                proof {
                    assert(vds(ds@) =~= d0.ds.push(
                        crate::value::MValue::MTerm(crate::value::MTerminal::MNum(d0.ss)),
                    ));
                }
                Ok(())
            } else {
                Err(JsonError::Unicode)
            }
        },
        Action::CharToStr => {
            if es.len() > 0 {
                let mut frag: Vec<u8> = Vec::new();
                core::mem::swap(es, &mut frag);
                Err(JsonError::InvalidEscape(frag))
            } else {
                ss.push(ch);
                Ok(())
            }
        },
        Action::CharToEsc => {
            if hex_digit(ch) {
                es.push(ch);
                Ok(())
            } else {
                let mut frag: Vec<u8> = Vec::new();
                frag.push(ch);
                proof {
                    assert(frag@ =~= seq![ch]);
                }
                Err(JsonError::InvalidEscape(frag))
            }
        },
        Action::SimpleEscape => {
            let decoded: Option<u8> = match ch {
                0x62 => Some(0x08),
                0x74 => Some(0x09),
                0x6e => Some(0x0a),
                0x66 => Some(0x0c),
                0x72 => Some(0x0d),
                _ => None,
            };
            match decoded {
                Some(b) => {
                    ss.push(b);
                    es.clear();
                    Ok(())
                },
                None => {
                    let mut frag: Vec<u8> = Vec::new();
                    frag.push(0x5c);
                    frag.push(ch);
                    proof {
                        assert(frag@ =~= seq![0x5cu8, ch]);
                    }
                    Err(JsonError::InvalidEscape(frag))
                },
            }
        },
        Action::UnicodeEscape => unicode_escape(ds, ss, es, output),
    }
}

/// Resolves the collected `\u` digits, as the model's `resolve_unicode`
/// says: a high surrogate waits for its partner, four digits resolve
/// directly, eight digits combine a surrogate pair.
fn unicode_escape(
    ds: &mut Vec<Value>,
    ss: &mut Vec<u8>,
    es: &mut Vec<u8>,
    output: &mut Vec<u8>,
) -> (r: Result<(), JsonError>)
    ensures
        (match crate::machine::resolve_unicode(
            MData { ds: vds(old(ds)@), ss: old(ss)@, es: old(es)@, out: old(output)@ },
        ) {
            ActRes::AOk(d2) => r is Ok && vds(final(ds)@) == d2.ds && final(ss)@ == d2.ss
                && final(es)@ == d2.es && final(output)@ == d2.out,
            ActRes::AErr(e, out2) => (r matches Err(je) && je@ == e) && final(output)@ == out2,
        }),
{
    let n = es.len();
    if n == 4 {
        let v = hex4(es, 0);
        proof {
            assert(es@.subrange(0, 4) =~= es@);
        }
        if 0xd800 <= v && v <= 0xdbff {
            Ok(())
        } else if v < 0xd800 || 0xe000 <= v {
            push_utf8(v, ss);
            es.clear();
            Ok(())
        } else {
            let mut frag: Vec<u8> = Vec::new();
            frag.push(0x5c);
            frag.push(0x75);
            push_bytes(&mut frag, es.as_slice());
            proof {
                assert(frag@ =~= crate::machine::u_frag(old(es)@));
            }
            Err(JsonError::InvalidEscape(frag))
        }
    } else if n == 8 {
        let hi = hex4(es, 0);
        let lo = hex4(es, 4);
        proof {
            assert(es@.subrange(0, 4) =~= es@.take(4));
            assert(es@.subrange(4, 8) =~= es@.skip(4));
        }
        if !(0xd800 <= hi && hi <= 0xdbff) {
            let mut frag: Vec<u8> = Vec::new();
            frag.push(0x5c);
            frag.push(0x75);
            frag.push(es[0]);
            frag.push(es[1]);
            frag.push(es[2]);
            frag.push(es[3]);
            proof {
                assert(frag@ =~= crate::machine::u_frag(old(es)@.take(4)));
            }
            Err(JsonError::InvalidEscape(frag))
        } else if !(0xdc00 <= lo && lo <= 0xdfff) {
            let mut frag: Vec<u8> = Vec::new();
            frag.push(0x5c);
            frag.push(0x75);
            frag.push(es[4]);
            frag.push(es[5]);
            frag.push(es[6]);
            frag.push(es[7]);
            proof {
                assert(frag@ =~= crate::machine::u_frag(old(es)@.skip(4)));
            }
            Err(JsonError::InvalidEscape(frag))
        } else {
            let cp = 0x10000 + (hi - 0xd800) * 0x400 + (lo - 0xdc00);
            push_utf8(cp, ss);
            es.clear();
            Ok(())
        }
    } else {
        let mut frag: Vec<u8> = Vec::new();
        frag.push(0x5c);
        frag.push(0x75);
        push_bytes(&mut frag, es.as_slice());
        proof {
            assert(frag@ =~= crate::machine::u_frag(old(es)@));
        }
        Err(JsonError::InvalidEscape(frag))
    }
}

/// Feeds one classified byte to the machine: walks the transition table,
/// re-processing the byte through the control stack on a return code, and
/// yields the next resting state, exactly as the model's `run_chain` says.
pub fn parse_ch(
    cat: Category,
    ch: u8,
    stack: &mut Vec<State>,
    state: State,
    ds: &mut Vec<Value>,
    ss: &mut Vec<u8>,
    es: &mut Vec<u8>,
    output: &mut Vec<u8>,
) -> (r: Result<State, JsonError>)
    ensures
        (match run_chain(
            state,
            old(stack)@,
            MData { ds: vds(old(ds)@), ss: old(ss)@, es: old(es)@, out: old(output)@ },
            cat,
            ch,
        ) {
            ChainRes::COk(s2, stk2, d2) => (r matches Ok(s) && s == s2) && final(stack)@ == stk2
                && vds(final(ds)@) == d2.ds && final(ss)@ == d2.ss && final(es)@ == d2.es
                && final(output)@ == d2.out,
            ChainRes::CErr(e, out2) => (r matches Err(je) && je@ == e) && final(output)@ == out2,
        }),
{
    let mut st = state;
    loop
        invariant
            run_chain(
                state,
                old(stack)@,
                MData { ds: vds(old(ds)@), ss: old(ss)@, es: old(es)@, out: old(output)@ },
                cat,
                ch,
            ) == run_chain(
                st,
                stack@,
                MData { ds: vds(ds@), ss: ss@, es: es@, out: output@ },
                cat,
                ch,
            ),
        decreases stack@.len(),
    {
        let ghost stack_in = stack@;
        let ghost d_in = MData { ds: vds(ds@), ss: ss@, es: es@, out: output@ };
        let t = transition(st, cat);
        match t {
            Trans::Halt => {
                return Err(JsonError::Syntax);
            },
            Trans::Step { push, action, code } => {
                if push {
                    let g = goto_of(st);
                    stack.push(g);
                }
                if matches!(st, State::Root) && ds.len() > 0 {
                    output.push(0x0a);
                    ds.pop();
                    proof {
                        assert(vds(ds@) =~= d_in.ds.drop_last());
                    }
                }
                let ghost d1 = MData { ds: vds(ds@), ss: ss@, es: es@, out: output@ };
                proof {
                    assert(d1 == (if st == State::Root && d_in.ds.len() > 0 {
                        MData {
                            ds: d_in.ds.drop_last(),
                            ss: d_in.ss,
                            es: d_in.es,
                            out: d_in.out.push(0x0a),
                        }
                    } else {
                        d_in
                    }));
                }
                if let Some(a) = action {
                    match do_action(a, ch, ds, ss, es, output) {
                        Ok(()) => {},
                        Err(e) => {
                            return Err(e);
                        },
                    }
                }
                match code {
                    Code::To(s2) => {
                        return Ok(s2);
                    },
                    Code::Ret => {
                        if push {
                            return Err(JsonError::Syntax);
                        }
                        match stack.pop() {
                            None => {
                                return Err(JsonError::Syntax);
                            },
                            Some(g) => {
                                proof {
                                    assert(stack@ =~= stack_in.drop_last());
                                    assert(g == stack_in.last());
                                }
                                st = g;
                            },
                        }
                    },
                }
            },
        }
    }
}

/// Parses a whole byte stream, appending one `path = value` line to
/// `output` for every scalar found and a separating newline after each
/// completed top-level value.
///
/// The result and the bytes appended to `output` are exactly what the
/// model's `spec_parse` says: `Ok` when the input is a well-formed
/// sequence of JSON values, otherwise the error kind with the 1-based line
/// and column of the byte being processed when the failure was detected
/// (whatever was emitted before the failure stays in `output`, as with a
/// streaming sink).
///
/// The input must leave room for the one-past-the-end position counter.
pub fn parse(input: &[u8], output: &mut Vec<u8>) -> (r: Result<(), (u64, u64, JsonError)>)
    requires
        input@.len() < usize::MAX,
    ensures
        (match spec_parse(input@) {
            MOut::MDone(out) => r is Ok && final(output)@ == old(output)@ + out,
            MOut::MFail(l, c, e, out) => (r matches Err((rl, rc, re)) && rl as nat == l
                && rc as nat == c && re@ == e) && final(output)@ == old(output)@ + out,
        }),
{
    let mut fresh: Vec<u8> = Vec::new();
    let r = parse_fresh(input, &mut fresh);
    output.append(&mut fresh);
    proof {
        assert(output@ == old(output)@ + (match spec_parse(input@) {
            MOut::MDone(out) => out,
            MOut::MFail(l, c, e, out) => out,
        }));
    }
    r
}

/// The engine behind `parse`, writing into an empty sink.
fn parse_fresh(input: &[u8], output: &mut Vec<u8>) -> (r: Result<(), (u64, u64, JsonError)>)
    requires
        old(output)@.len() == 0,
        input@.len() < usize::MAX,
    ensures
        (match spec_parse(input@) {
            MOut::MDone(out) => r is Ok && final(output)@ == out,
            MOut::MFail(l, c, e, out) => (r matches Err((rl, rc, re)) && rl as nat == l
                && rc as nat == c && re@ == e) && final(output)@ == out,
        }),
{
    let mut stack: Vec<State> = Vec::new();
    let mut state = State::Root;
    let mut ds: Vec<Value> = Vec::new();
    let mut ss: Vec<u8> = Vec::new();
    let mut es: Vec<u8> = Vec::new();
    let mut line: u64 = 1;
    let mut col: u64 = 0;
    let n = input.len();
    let mut i: usize = 0;
    proof {
        assert(stack@ =~= Seq::<State>::empty());
        assert(vds(ds@) =~= Seq::<crate::value::MValue>::empty());
        assert(ss@ =~= Seq::<u8>::empty());
        assert(es@ =~= Seq::<u8>::empty());
        assert(output@ =~= Seq::<u8>::empty());
        assert(MCfg {
            state: state,
            stack: stack@,
            data: MData { ds: vds(ds@), ss: ss@, es: es@, out: output@ },
            line: line as nat,
            col: col as nat,
        } == init_cfg());
    }
    while i < n
        invariant
            n == input@.len(),
            n < usize::MAX,
            i <= n,
            line as nat <= 1 + i,
            col as nat <= i,
            run_prefix(input@, i as int) == PRes::POk(
                MCfg {
                    state: state,
                    stack: stack@,
                    data: MData { ds: vds(ds@), ss: ss@, es: es@, out: output@ },
                    line: line as nat,
                    col: col as nat,
                },
            ),
        decreases n - i,
    {
        let ghost pre_cfg = MCfg {
            state: state,
            stack: stack@,
            data: MData { ds: vds(ds@), ss: ss@, es: es@, out: output@ },
            line: line as nat,
            col: col as nat,
        };
        let ch = input[i];
        let l2: u64 = if ch == 0x0a {
            line + 1
        } else {
            line
        };
        let c2: u64 = if ch == 0x0a {
            0
        } else {
            col + 1
        };
        let cat = classify(ch);
        match parse_ch(cat, ch, &mut stack, state, &mut ds, &mut ss, &mut es, output) {
            Ok(s2) => {
                proof {
                    assert(step_byte(pre_cfg, ch) == PRes::POk(
                        MCfg {
                            state: s2,
                            stack: stack@,
                            data: MData { ds: vds(ds@), ss: ss@, es: es@, out: output@ },
                            line: l2 as nat,
                            col: c2 as nat,
                        },
                    ));
                    assert(run_prefix(input@, i + 1) == step_byte(pre_cfg, ch));
                }
                state = s2;
                line = l2;
                col = c2;
            },
            Err(e) => {
                proof {
                    assert(run_prefix(input@, i + 1) == PRes::PErr(
                        l2 as nat,
                        c2 as nat,
                        e@,
                        output@,
                    ));
                    crate::machine::lemma_perr_persists(input@, i + 1, input@.len() as int);
                }
                return Err((l2, c2, e));
            },
        }
        i = i + 1;
    }
    match parse_ch(Category::Ws, 0x3f, &mut stack, state, &mut ds, &mut ss, &mut es, output) {
        Ok(s2) => {
            state = s2;
        },
        Err(e) => {
            return Err((line, col, e));
        },
    }
    if matches!(state, State::Root) {
        Ok(())
    } else {
        Err((line, col, JsonError::Truncated))
    }
}

} // verus!
