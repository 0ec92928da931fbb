//! Proved properties of the parser, stated over the model that `parse` is
//! proved equal to.

use vstd::prelude::*;
use crate::category::Category;
use crate::codec::hex4_val;
use crate::codec::is_scalar;
use crate::codec::utf8_enc;
use crate::machine::ActRes;
use crate::machine::ChainRes;
use crate::machine::MData;
use crate::machine::MOut;
use crate::machine::PRes;
use crate::machine::lemma_perr_persists;
use crate::machine::resolve_unicode;
use crate::machine::run_chain;
use crate::machine::run_prefix;
use crate::machine::spec_parse;
use crate::machine::u_frag;
use crate::table::State;
use crate::table::spec_goto;
use crate::value::MError;

verus! {

/// The 1-based line of the position reached after `j` bytes: each newline
/// consumed increments it.
pub open spec fn line_at(input: Seq<u8>, j: int) -> nat
    decreases j,
{
    if j <= 0 {
        1
    } else if input[j - 1] == 0x0a {
        line_at(input, j - 1) + 1
    } else {
        line_at(input, j - 1)
    }
}

/// The column of the position reached after `j` bytes: reset to 0 by each
/// newline consumed, incremented by every other byte.
pub open spec fn col_at(input: Seq<u8>, j: int) -> nat
    decreases j,
{
    if j <= 0 {
        0
    } else if input[j - 1] == 0x0a {
        0
    } else {
        col_at(input, j - 1) + 1
    }
}

/// The number of newline bytes in `s`.
pub open spec fn count_nl(s: Seq<u8>) -> nat
    decreases s.len(),
{
    if s.len() == 0 {
        0
    } else {
        count_nl(s.drop_last()) + if s.last() == 0x0a {
            1nat
        } else {
            0nat
        }
    }
}

/// The line after `j` bytes is one more than the newlines among them.
pub proof fn lemma_line_counts_newlines(input: Seq<u8>, j: int)
    requires
        0 <= j <= input.len(),
    ensures
        line_at(input, j) == 1 + count_nl(input.take(j)),
    decreases j,
{
    if j > 0 {
        lemma_line_counts_newlines(input, j - 1);
        assert(input.take(j).drop_last() =~= input.take(j - 1));
        assert(input.take(j).last() == input[j - 1]);
    } else {
        assert(input.take(0) =~= Seq::<u8>::empty());
    }
}

/// The machine's position counters track `line_at` and `col_at` exactly.
pub proof fn lemma_position_tracking(input: Seq<u8>, n: int)
    requires
        0 <= n,
        run_prefix(input, n) matches PRes::POk(_),
    ensures
        run_prefix(input, n) matches PRes::POk(cfg) && cfg.line == line_at(input, n)
            && cfg.col == col_at(input, n),
    decreases n,
{
    if n > 0 {
        match run_prefix(input, n - 1) {
            PRes::POk(cfg) => {
                lemma_position_tracking(input, n - 1);
            },
            PRes::PErr(l, c, e, out) => {
                assert(run_prefix(input, n) == run_prefix(input, n - 1));
            },
        }
    }
}

/// Every error detected while consuming byte `n` (0-based) is reported at
/// that byte's own 1-based line and column, and becomes the result of the
/// whole parse.
pub proof fn lemma_error_position(input: Seq<u8>, n: int)
    requires
        0 <= n < input.len(),
        run_prefix(input, n) matches PRes::POk(_),
        !(run_prefix(input, n + 1) matches PRes::POk(_)),
    ensures
        run_prefix(input, n + 1) matches PRes::PErr(l, c, e, out) && l == line_at(input, n + 1)
            && c == col_at(input, n + 1),
        spec_parse(input) matches MOut::MFail(l, c, e, out) && l == line_at(input, n + 1)
            && c == col_at(input, n + 1),
{
    lemma_position_tracking(input, n);
    lemma_perr_persists(input, n + 1, input.len() as int);
}

/// An error detected at the synthetic end-of-input byte — truncation
/// included — is reported at the position after the whole input.
pub proof fn lemma_end_position(input: Seq<u8>)
    requires
        run_prefix(input, input.len() as int) matches PRes::POk(_),
        !(spec_parse(input) matches MOut::MDone(_)),
    ensures
        spec_parse(input) matches MOut::MFail(l, c, e, out) && l == line_at(
            input,
            input.len() as int,
        ) && c == col_at(input, input.len() as int),
{
    lemma_position_tracking(input, input.len() as int);
}

/// Whether `s` is a state the control stack can hold.
pub open spec fn is_goto_state(s: State) -> bool {
    s == State::Root || s == State::ObjColon || s == State::ObjMemberDone || s == State::ArrTail
        || s == State::UniResolve
}

/// Whether every entry of the control stack is a goto state.
pub open spec fn stack_ok(stk: Seq<State>) -> bool {
    forall|i: int| 0 <= i < stk.len() ==> is_goto_state(stk[i])
}

/// Everything the goto table yields is a goto state.
pub proof fn lemma_goto_range(s: State)
    ensures
        is_goto_state(spec_goto(s)),
{
}

/// One byte's transition chain keeps the control stack inside the goto
/// states.
pub proof fn lemma_chain_stack_ok(
    state: State,
    stack: Seq<State>,
    d: MData,
    cat: Category,
    ch: u8,
)
    requires
        stack_ok(stack),
    ensures
        run_chain(state, stack, d, cat, ch) matches ChainRes::COk(s2, stk2, d2) ==> stack_ok(stk2),
    decreases stack.len(),
{
    match crate::table::spec_transition(state, cat) {
        crate::table::Trans::Halt => {},
        crate::table::Trans::Step { push, action, code } => {
            if push {
                lemma_goto_range(state);
                let stk1 = stack.push(spec_goto(state));
                assert forall|i: int| 0 <= i < stk1.len() implies is_goto_state(stk1[i]) by {
                    if i < stack.len() {
                        assert(is_goto_state(stack[i]));
                    }
                }
            }
            if code matches crate::table::Code::Ret && !push && stack.len() > 0 {
                assert(stack_ok(stack.drop_last()));
                let d1 = if state == State::Root && d.ds.len() > 0 {
                    MData { ds: d.ds.drop_last(), ss: d.ss, es: d.es, out: d.out.push(0x0a) }
                } else {
                    d
                };
                match (match action {
                    Option::None => ActRes::AOk(d1),
                    Option::Some(a) => crate::machine::do_action_m(a, ch, d1),
                }) {
                    ActRes::AOk(d2) => {
                        lemma_chain_stack_ok(stack.last(), stack.drop_last(), d2, cat, ch);
                    },
                    ActRes::AErr(e, out) => {},
                }
            }
        },
    }
}

/// Processing any prefix of the input keeps the control stack inside the
/// goto states.
pub proof fn lemma_run_stack_ok(input: Seq<u8>, n: int)
    requires
        0 <= n,
    ensures
        run_prefix(input, n) matches PRes::POk(cfg) ==> stack_ok(cfg.stack),
    decreases n,
{
    if n > 0 {
        lemma_run_stack_ok(input, n - 1);
        match run_prefix(input, n - 1) {
            PRes::POk(cfg) => {
                lemma_chain_stack_ok(
                    cfg.state,
                    cfg.stack,
                    cfg.data,
                    crate::category::spec_classify(input[n - 1]),
                    input[n - 1],
                );
            },
            PRes::PErr(l, c, e, out) => {},
        }
    }
}

/// Two inputs that share a prefix process that prefix identically.
pub proof fn lemma_prefix_agree(s: Seq<u8>, p: Seq<u8>, n: int)
    requires
        0 <= n <= p.len(),
        p.len() <= s.len(),
        p == s.take(p.len() as int),
    ensures
        run_prefix(p, n) == run_prefix(s, n),
    decreases n,
{
    if n > 0 {
        lemma_prefix_agree(s, p, n - 1);
        assert(p[n - 1] == s[n - 1]);
    }
}

/// Whether the machine is resting inside a number or keyword literal.
pub open spec fn in_literal(s: State) -> bool {
    s == State::NumMinus || s == State::NumZero || s == State::NumInt || s == State::NumDot
        || s == State::NumFrac || s == State::NumExpMark || s == State::NumExpSign
        || s == State::NumExp || s == State::TrueR || s == State::TrueU || s == State::TrueE
        || s == State::FalseA || s == State::FalseL || s == State::FalseS || s == State::FalseE
        || s == State::NullU || s == State::NullL1 || s == State::NullL2
}

/// Whether processing the first `n` bytes of `input` leaves the machine
/// resting inside a number or keyword literal.
pub open spec fn ends_in_literal(input: Seq<u8>, n: int) -> bool {
    match run_prefix(input, n) {
        PRes::POk(cfg) => in_literal(cfg.state),
        PRes::PErr(l, c, e, out) => false,
    }
}

/// Cutting an accepted input short inside an object, an array or a string
/// is never reported as a syntax error: the truncated input either parses
/// (the cut fell on a value boundary), or fails as `Truncated`, or — cut
/// inside an escape sequence — as `InvalidEscape`.  Only a cut inside a
/// number or keyword literal (excluded here) can surface as `Syntax`, from
/// the half-read literal itself.
pub proof fn lemma_truncation_not_syntax(s: Seq<u8>, p: Seq<u8>)
    requires
        spec_parse(s) matches MOut::MDone(_),
        p.len() < s.len(),
        p == s.take(p.len() as int),
        !ends_in_literal(s, p.len() as int),
    ensures
        spec_parse(p) matches MOut::MFail(l, c, e, out) ==> e != MError::MSyntax,
{
    let n = p.len() as int;
    let len = s.len() as int;
    if !(run_prefix(s, n) matches PRes::POk(_)) {
        lemma_perr_persists(s, n, len);
        assert(false);
    }
    if !(run_prefix(s, n + 1) matches PRes::POk(_)) {
        lemma_perr_persists(s, n + 1, len);
        assert(false);
    }
    lemma_prefix_agree(s, p, n);
    lemma_run_stack_ok(s, n);
    let cfg = run_prefix(s, n)->POk_0;
    let eof = run_chain(cfg.state, cfg.stack, cfg.data, Category::Ws, 0x3f);
    if cfg.state == State::Done {
        if cfg.stack.len() == 0 {
            let chb = s[n];
            let catb = crate::category::spec_classify(chb);
            assert(run_chain(cfg.state, cfg.stack, cfg.data, catb, chb) matches ChainRes::CErr(
                e2,
                o2,
            ));
            assert(false);
        } else {
            let g = cfg.stack.last();
            let stk1 = cfg.stack.drop_last();
            let inner = run_chain(g, stk1, cfg.data, Category::Ws, 0x3f);
            assert(eof == inner);
            assert(is_goto_state(g));
            if g == State::UniResolve {
                assert(match inner {
                    ChainRes::COk(s2, stk2, d2) => true,
                    ChainRes::CErr(e, o) => e matches MError::MInvalidEscape(f),
                });
            } else {
                assert(inner matches ChainRes::COk(s2, stk2, d2));
            }
            assert(spec_parse(p) matches MOut::MFail(l, c, e, out) ==> e != MError::MSyntax);
        }
    } else {
        assert(spec_parse(p) matches MOut::MFail(l, c, e, out) ==> e != MError::MSyntax);
    }
}

/// A key made of ASCII alphanumerics and underscores contributes itself to
/// the path, bare; any other key contributes its quoted, escaped rendering.
pub proof fn lemma_key_rendering(s: Seq<u8>)
    ensures
        crate::emit::bare_ok(s) ==> crate::emit::path_item(
            crate::value::MValue::MTerm(crate::value::MTerminal::MStr(s)),
        ) == s,
        !crate::emit::bare_ok(s) ==> crate::emit::path_item(
            crate::value::MValue::MTerm(crate::value::MTerminal::MStr(s)),
        ) == crate::emit::fmt_str(s),
{
}

/// Bytes outside the ASCII range — the bytes of multi-byte UTF-8
/// sequences — are emitted verbatim, never `\u`-escaped.
pub proof fn lemma_non_ascii_passes_through(b: u8)
    requires
        0x80 <= b,
    ensures
        crate::emit::esc_byte(b) == seq![b],
{
}

/// A `\u` escape resolves exactly or fails: four hex digits holding a high
/// surrogate wait unchanged for the low half; four digits holding any other
/// scalar append precisely that code point's UTF-8 bytes; eight digits must
/// be a high and a low surrogate and append precisely the paired code
/// point's UTF-8 bytes; every other scratch — a lone low surrogate, an
/// unpaired half, a wrong digit count — is an `InvalidEscape` carrying the
/// offending digits.  No outcome substitutes a replacement character.
pub proof fn lemma_unicode_escape_exact(d: MData)
    ensures
        (d.es.len() == 4 && 0xd800 <= hex4_val(d.es) && hex4_val(d.es) <= 0xdbff)
            ==> resolve_unicode(d) == ActRes::AOk(d),
        (d.es.len() == 4 && is_scalar(hex4_val(d.es))) ==> resolve_unicode(d) == ActRes::AOk(
            (MData { ds: d.ds, ss: d.ss + utf8_enc(hex4_val(d.es)), es: Seq::empty(), out: d.out }),
        ),
        (d.es.len() == 4 && !(0xd800 <= hex4_val(d.es) && hex4_val(d.es) <= 0xdbff) && !is_scalar(
            hex4_val(d.es),
        )) ==> resolve_unicode(d) == ActRes::AErr(MError::MInvalidEscape(u_frag(d.es)), d.out),
        (d.es.len() == 8 && 0xd800 <= hex4_val(d.es.take(4)) && hex4_val(d.es.take(4)) <= 0xdbff
            && 0xdc00 <= hex4_val(d.es.skip(4)) && hex4_val(d.es.skip(4)) <= 0xdfff)
            ==> resolve_unicode(d) == ActRes::AOk(
            (MData {
                ds: d.ds,
                ss: d.ss + utf8_enc(
                    (0x10000 + (hex4_val(d.es.take(4)) - 0xd800) * 0x400 + (hex4_val(d.es.skip(4))
                        - 0xdc00)) as nat,
                ),
                es: Seq::empty(),
                out: d.out,
            }),
        ),
        (d.es.len() == 8 && !(0xd800 <= hex4_val(d.es.take(4)) && hex4_val(d.es.take(4)) <= 0xdbff))
            ==> resolve_unicode(d) == ActRes::AErr(
            MError::MInvalidEscape(u_frag(d.es.take(4))),
            d.out,
        ),
        (d.es.len() == 8 && 0xd800 <= hex4_val(d.es.take(4)) && hex4_val(d.es.take(4)) <= 0xdbff
            && !(0xdc00 <= hex4_val(d.es.skip(4)) && hex4_val(d.es.skip(4)) <= 0xdfff))
            ==> resolve_unicode(d) == ActRes::AErr(
            MError::MInvalidEscape(u_frag(d.es.skip(4))),
            d.out,
        ),
        (d.es.len() != 4 && d.es.len() != 8) ==> resolve_unicode(d) == ActRes::AErr(
            MError::MInvalidEscape(u_frag(d.es)),
            d.out,
        ),
{
}

} // verus!
