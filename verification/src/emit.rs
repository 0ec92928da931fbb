//! Output formatting: scalar values and the path prefix printed before
//! ` = `.
//!
//! Strings are printed double-quoted with the defined escape table: `\"`,
//! `\\`, `\b`, `\t`, `\f`, `\n`, `\r`, any other control byte as `\u00XX`,
//! and every other byte — including the bytes of multi-byte UTF-8
//! sequences — verbatim.  An object key that consists solely of ASCII
//! alphanumerics and underscores is printed bare in the path; any other key
//! is printed as a quoted string.

use vstd::prelude::*;
use crate::codec::dec_digits;
use crate::codec::push_bytes;
use crate::codec::push_decimal;
use crate::value::MTerminal;
use crate::value::MValue;
use crate::value::Terminal;
use crate::value::Value;
use crate::value::vds;

verus! {

/// The lower-case hex digit for `n` (0 to 15).
pub open spec fn hex_char(n: u8) -> u8 {
    if n < 10 {
        (0x30 + n) as u8
    } else {
        (0x57 + n) as u8
    }
}

/// How one byte of a string value is printed.
pub open spec fn esc_byte(b: u8) -> Seq<u8> {
    if b == 0x22 {
        seq![0x5c, 0x22]
    } else if b == 0x5c {
        seq![0x5c, 0x5c]
    } else if b == 0x08 {
        seq![0x5c, 0x62]
    } else if b == 0x09 {
        seq![0x5c, 0x74]
    } else if b == 0x0c {
        seq![0x5c, 0x66]
    } else if b == 0x0a {
        seq![0x5c, 0x6e]
    } else if b == 0x0d {
        seq![0x5c, 0x72]
    } else if b < 0x20 {
        seq![0x5c, 0x75, 0x30, 0x30, hex_char(b / 16), hex_char(b % 16)]
    } else {
        seq![b]
    }
}

/// The escaped rendering of a whole string body.
pub open spec fn esc_bytes(s: Seq<u8>) -> Seq<u8>
    decreases s.len(),
{
    if s.len() == 0 {
        Seq::empty()
    } else {
        esc_bytes(s.drop_last()) + esc_byte(s.last())
    }
}

/// The quoted rendering of a string value.
pub open spec fn fmt_str(s: Seq<u8>) -> Seq<u8> {
    seq![0x22] + esc_bytes(s) + seq![0x22]
}

/// How a scalar is printed: `null`, `true`/`false`, a number verbatim, a
/// string quoted and escaped.
pub open spec fn fmt_term(t: MTerminal) -> Seq<u8> {
    match t {
        MTerminal::MNull => seq![0x6e, 0x75, 0x6c, 0x6c],
        MTerminal::MBool(b) => if b {
            seq![0x74, 0x72, 0x75, 0x65]
        } else {
            seq![0x66, 0x61, 0x6c, 0x73, 0x65]
        },
        MTerminal::MNum(s) => s,
        MTerminal::MStr(s) => fmt_str(s),
    }
}

/// Whether `b` may appear in a bare (unquoted) key.
pub open spec fn ident_byte(b: u8) -> bool {
    (0x30 <= b && b <= 0x39) || (0x41 <= b && b <= 0x5a) || (0x61 <= b && b <= 0x7a) || b == 0x5f
}

/// Whether a key prints bare: every byte alphanumeric or underscore.
pub open spec fn bare_ok(s: Seq<u8>) -> bool {
    forall|i: int| 0 <= i < s.len() ==> ident_byte(s[i])
}

/// How one value-stack entry contributes to the path: `.` for an object,
/// `[index]` for a list, the key itself (bare or quoted) for a string.
/// Other scalars never stand inside a path and contribute nothing.
pub open spec fn path_item(v: MValue) -> Seq<u8> {
    match v {
        MValue::MObject { empty } => seq![0x2e],
        MValue::MList { index } => seq![0x5b] + dec_digits(index) + seq![0x5d],
        MValue::MTerm(t) => match t {
            MTerminal::MStr(s) => if bare_ok(s) {
                s
            } else {
                fmt_str(s)
            },
            _ => Seq::empty(),
        },
    }
}

/// The full path: the contributions of the stack from root to top.
pub open spec fn path_m(ds: Seq<MValue>) -> Seq<u8>
    decreases ds.len(),
{
    if ds.len() == 0 {
        Seq::empty()
    } else {
        path_m(ds.drop_last()) + path_item(ds.last())
    }
}

/// Appends the escaped rendering of `s` to `out`.
fn push_escaped(s: &Vec<u8>, out: &mut Vec<u8>)
    ensures
        final(out)@ == old(out)@ + esc_bytes(s@),
{
    let n = s.len();
    let mut i: usize = 0;
    proof {
        assert(s@.take(0) =~= Seq::<u8>::empty());
    }
    while i < n
        invariant
            n == s@.len(),
            i <= n,
            out@ == old(out)@ + esc_bytes(s@.take(i as int)),
        decreases n - i,
    {
        let b = s[i];
        if b == 0x22 {
            out.push(0x5c);
            out.push(0x22);
        } else if b == 0x5c {
            out.push(0x5c);
            out.push(0x5c);
        } else if b == 0x08 {
            out.push(0x5c);
            out.push(0x62);
        } else if b == 0x09 {
            out.push(0x5c);
            out.push(0x74);
        } else if b == 0x0c {
            out.push(0x5c);
            out.push(0x66);
        } else if b == 0x0a {
            out.push(0x5c);
            out.push(0x6e);
        } else if b == 0x0d {
            out.push(0x5c);
            out.push(0x72);
        } else if b < 0x20 {
            out.push(0x5c);
            out.push(0x75);
            out.push(0x30);
            out.push(0x30);
            out.push(if b / 16 < 10 {
                0x30 + b / 16
            } else {
                0x57 + b / 16
            });
            out.push(if b % 16 < 10 {
                0x30 + b % 16
            } else {
                0x57 + b % 16
            });
        } else {
            out.push(b);
        }
        proof {
            assert(s@.take(i + 1).drop_last() =~= s@.take(i as int));
            assert(s@.take(i + 1).last() == s@[i as int]);
            assert(out@ =~= old(out)@ + esc_bytes(s@.take(i + 1)));
        }
        i = i + 1;
    }
    proof {
        assert(s@.take(n as int) =~= s@);
    }
}

/// Appends the quoted rendering of `s` to `out`.
fn push_quoted(s: &Vec<u8>, out: &mut Vec<u8>)
    ensures
        final(out)@ == old(out)@ + fmt_str(s@),
{
    out.push(0x22);
    push_escaped(s, out);
    out.push(0x22);
    proof {
        assert(out@ =~= old(out)@ + fmt_str(s@));
    }
}

/// Whether `s` prints bare as a key.
fn is_bare(s: &Vec<u8>) -> (r: bool)
    ensures
        r == bare_ok(s@),
{
    let n = s.len();
    let mut i: usize = 0;
    while i < n
        invariant
            n == s@.len(),
            i <= n,
            forall|j: int| 0 <= j < i ==> ident_byte(s@[j]),
        decreases n - i,
    {
        let b = s[i];
        if !((0x30 <= b && b <= 0x39) || (0x41 <= b && b <= 0x5a) || (0x61 <= b && b <= 0x7a)
            || b == 0x5f) {
            return false;
        }
        i = i + 1;
    }
    true
}

/// Appends the printed form of the scalar `t` to `out`.
pub fn format_terminal(t: &Terminal, out: &mut Vec<u8>)
    ensures
        final(out)@ == old(out)@ + fmt_term(t@),
{
    match t {
        Terminal::Null => {
            out.push(0x6e);
            out.push(0x75);
            out.push(0x6c);
            out.push(0x6c);
            proof {
                assert(out@ =~= old(out)@ + fmt_term(t@));
            }
        },
        Terminal::Bool(b) => {
            if *b {
                out.push(0x74);
                out.push(0x72);
                out.push(0x75);
                out.push(0x65);
            } else {
                out.push(0x66);
                out.push(0x61);
                out.push(0x6c);
                out.push(0x73);
                out.push(0x65);
            }
            proof {
                assert(out@ =~= old(out)@ + fmt_term(t@));
            }
        },
        Terminal::Number(s) => {
            push_bytes(out, s.as_slice());
        },
        Terminal::Str(s) => {
            push_quoted(s, out);
        },
    }
}

/// Prints the path from the document root through every entry of the value
/// stack: `.` then the key for object members, `[index]` for list elements.
pub fn print_path(ds: &Vec<Value>, output: &mut Vec<u8>)
    ensures
        final(output)@ == old(output)@ + path_m(vds(ds@)),
{
    let n = ds.len();
    let mut i: usize = 0;
    proof {
        assert(vds(ds@).take(0) =~= Seq::<MValue>::empty());
    }
    while i < n
        invariant
            n == ds@.len(),
            i <= n,
            output@ == old(output)@ + path_m(vds(ds@).take(i as int)),
        decreases n - i,
    {
        match &ds[i] {
            Value::Object { empty } => {
                output.push(0x2e);
            },
            Value::List { index } => {
                output.push(0x5b);
                push_decimal(*index, output);
                output.push(0x5d);
            },
            Value::Terminal(t) => {
                match t {
                    Terminal::Str(s) => {
                        if is_bare(s) {
                            push_bytes(output, s.as_slice());
                        } else {
                            push_quoted(s, output);
                        }
                    },
                    _ => {},
                }
            },
        }
        proof {
            assert(vds(ds@).take(i + 1).drop_last() =~= vds(ds@).take(i as int));
            assert(vds(ds@).take(i + 1).last() == ds@[i as int]@);
            assert(output@ =~= old(output)@ + path_m(vds(ds@).take(i + 1)));
        }
        i = i + 1;
    }
    proof {
        assert(vds(ds@).take(n as int) =~= vds(ds@));
    }
}

} // verus!
