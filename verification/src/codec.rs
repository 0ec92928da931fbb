//! Byte-level coding helpers: hex digits, UTF-8 encoding of a code point,
//! UTF-8 validation of a byte run, and decimal rendering of list indices.

use vstd::prelude::*;

verus! {

/// Whether `b` is an ASCII hex digit.
pub open spec fn is_hex(b: u8) -> bool {
    (0x30 <= b && b <= 0x39) || (0x61 <= b && b <= 0x66) || (0x41 <= b && b <= 0x46)
}

/// The value of a hex digit (0 for any other byte).
pub open spec fn hexv(b: u8) -> nat {
    if 0x30 <= b && b <= 0x39 {
        (b - 0x30) as nat
    } else if 0x61 <= b && b <= 0x66 {
        (b - 0x57) as nat
    } else if 0x41 <= b && b <= 0x46 {
        (b - 0x37) as nat
    } else {
        0
    }
}

/// The value of four hex digits, most significant first.
pub open spec fn hex4_val(s: Seq<u8>) -> nat {
    hexv(s[0]) * 0x1000 + hexv(s[1]) * 0x100 + hexv(s[2]) * 0x10 + hexv(s[3])
}

/// Whether `v` is a Unicode scalar value (encodable as UTF-8).
pub open spec fn is_scalar(v: nat) -> bool {
    v < 0xd800 || (0xe000 <= v && v <= 0x10ffff)
}

/// The UTF-8 encoding of code point `cp`.
pub open spec fn utf8_enc(cp: nat) -> Seq<u8> {
    if cp < 0x80 {
        seq![cp as u8]
    } else if cp < 0x800 {
        seq![(0xc0 + cp / 0x40) as u8, (0x80 + cp % 0x40) as u8]
    } else if cp < 0x10000 {
        seq![
            (0xe0 + cp / 0x1000) as u8,
            (0x80 + (cp / 0x40) % 0x40) as u8,
            (0x80 + cp % 0x40) as u8,
        ]
    } else {
        seq![
            (0xf0 + cp / 0x40000) as u8,
            (0x80 + (cp / 0x1000) % 0x40) as u8,
            (0x80 + (cp / 0x40) % 0x40) as u8,
            (0x80 + cp % 0x40) as u8,
        ]
    }
}

/// Whether `b` is a UTF-8 continuation byte.
pub open spec fn utf8_cont(b: u8) -> bool {
    0x80 <= b && b <= 0xbf
}

/// Whether `s` is well-formed UTF-8: correct continuation bytes, no overlong
/// forms, no surrogates, nothing above U+10FFFF.
pub open spec fn utf8_ok(s: Seq<u8>) -> bool
    decreases s.len(),
{
    if s.len() == 0 {
        true
    } else {
        let b0 = s[0];
        if b0 < 0x80 {
            utf8_ok(s.skip(1))
        } else if 0xc2 <= b0 && b0 <= 0xdf {
            if s.len() >= 2 && utf8_cont(s[1]) {
                utf8_ok(s.skip(2))
            } else {
                false
            }
        } else if b0 == 0xe0 {
            if s.len() >= 3 && 0xa0 <= s[1] && s[1] <= 0xbf && utf8_cont(s[2]) {
                utf8_ok(s.skip(3))
            } else {
                false
            }
        } else if 0xe1 <= b0 && b0 <= 0xec {
            if s.len() >= 3 && utf8_cont(s[1]) && utf8_cont(s[2]) {
                utf8_ok(s.skip(3))
            } else {
                false
            }
        } else if b0 == 0xed {
            if s.len() >= 3 && 0x80 <= s[1] && s[1] <= 0x9f && utf8_cont(s[2]) {
                utf8_ok(s.skip(3))
            } else {
                false
            }
        } else if 0xee <= b0 && b0 <= 0xef {
            if s.len() >= 3 && utf8_cont(s[1]) && utf8_cont(s[2]) {
                utf8_ok(s.skip(3))
            } else {
                false
            }
        } else if b0 == 0xf0 {
            if s.len() >= 4 && 0x90 <= s[1] && s[1] <= 0xbf && utf8_cont(s[2]) && utf8_cont(s[3]) {
                utf8_ok(s.skip(4))
            } else {
                false
            }
        } else if 0xf1 <= b0 && b0 <= 0xf3 {
            if s.len() >= 4 && utf8_cont(s[1]) && utf8_cont(s[2]) && utf8_cont(s[3]) {
                utf8_ok(s.skip(4))
            } else {
                false
            }
        } else if b0 == 0xf4 {
            if s.len() >= 4 && 0x80 <= s[1] && s[1] <= 0x8f && utf8_cont(s[2]) && utf8_cont(s[3]) {
                utf8_ok(s.skip(4))
            } else {
                false
            }
        } else {
            false
        }
    }
}

/// The decimal digits of `n`, most significant first.
pub open spec fn dec_digits(n: nat) -> Seq<u8>
    decreases n,
{
    if n < 10 {
        seq![(0x30 + n) as u8]
    } else {
        dec_digits(n / 10) + seq![(0x30 + n % 10) as u8]
    }
}

/// Whether `b` is an ASCII hex digit.
pub fn hex_digit(b: u8) -> (r: bool)
    ensures
        r == is_hex(b),
{
    (0x30 <= b && b <= 0x39) || (0x61 <= b && b <= 0x66) || (0x41 <= b && b <= 0x46)
}

/// The value of a hex digit.
pub fn hex_nibble(b: u8) -> (r: u8)
    ensures
        r as nat == hexv(b),
{
    if 0x30 <= b && b <= 0x39 {
        b - 0x30
    } else if 0x61 <= b && b <= 0x66 {
        b - 0x57
    } else if 0x41 <= b && b <= 0x46 {
        b - 0x37
    } else {
        0
    }
}

/// The value of the four hex digits of `es` starting at `off`.
pub fn hex4(es: &Vec<u8>, off: usize) -> (v: u32)
    requires
        off + 4 <= es@.len(),
    ensures
        v as nat == hex4_val(es@.subrange(off as int, off as int + 4)),
        v < 0x10000,
{
    let n = es.len();
    let h0 = hex_nibble(es[off]) as u32;
    let h1 = hex_nibble(es[off + 1]) as u32;
    let h2 = hex_nibble(es[off + 2]) as u32;
    let h3 = hex_nibble(es[off + 3]) as u32;
    proof {
        let sub = es@.subrange(off as int, off as int + 4);
        assert(sub[0] == es@[off as int]);
        assert(sub[1] == es@[off as int + 1]);
        assert(sub[2] == es@[off as int + 2]);
        assert(sub[3] == es@[off as int + 3]);
        assert(hexv(es@[off as int]) < 16);
        assert(hexv(es@[off as int + 1]) < 16);
        assert(hexv(es@[off as int + 2]) < 16);
        assert(hexv(es@[off as int + 3]) < 16);
    }
    h0 * 0x1000 + h1 * 0x100 + h2 * 0x10 + h3
}

/// Appends the UTF-8 encoding of `cp` to `ss`.
pub fn push_utf8(cp: u32, ss: &mut Vec<u8>)
    ensures
        final(ss)@ == old(ss)@ + utf8_enc(cp as nat),
{
    if cp < 0x80 {
        ss.push(cp as u8);
    } else if cp < 0x800 {
        ss.push((0xc0 + cp / 0x40) as u8);
        ss.push((0x80 + cp % 0x40) as u8);
    } else if cp < 0x10000 {
        ss.push((0xe0 + cp / 0x1000) as u8);
        ss.push((0x80 + (cp / 0x40) % 0x40) as u8);
        ss.push((0x80 + cp % 0x40) as u8);
    } else {
        ss.push((0xf0 + cp / 0x40000) as u8);
        ss.push((0x80 + (cp / 0x1000) % 0x40) as u8);
        ss.push((0x80 + (cp / 0x40) % 0x40) as u8);
        ss.push((0x80 + cp % 0x40) as u8);
    }
    proof {
        assert(ss@ =~= old(ss)@ + utf8_enc(cp as nat));
    }
}

/// Whether the bytes of `s` are well-formed UTF-8.
pub fn check_utf8(s: &Vec<u8>) -> (b: bool)
    ensures
        b == utf8_ok(s@),
{
    let n = s.len();
    let mut i: usize = 0;
    proof {
        assert(s@.skip(0) =~= s@);
    }
    while i < n
        invariant
            n == s@.len(),
            i <= n,
            utf8_ok(s@) == utf8_ok(s@.skip(i as int)),
        decreases n - i,
    {
        let ghost tail = s@.skip(i as int);
        proof {
            assert(tail.len() == n - i);
            assert(tail[0] == s@[i as int]);
        }
        let b0 = s[i];
        if b0 < 0x80 {
            proof {
                assert(tail.skip(1) =~= s@.skip(i + 1));
            }
            i = i + 1;
        } else if 0xc2 <= b0 && b0 <= 0xdf {
            if n - i >= 2 && {
                proof {
                    assert(tail[1] == s@[i + 1]);
                }
                let b1 = s[i + 1];
                0x80 <= b1 && b1 <= 0xbf
            } {
                proof {
                    assert(tail.skip(2) =~= s@.skip(i + 2));
                }
                i = i + 2;
            } else {
                return false;
            }
        } else if 0xe0 <= b0 && b0 <= 0xef {
            if n - i >= 3 {
                proof {
                    assert(tail[1] == s@[i + 1]);
                    assert(tail[2] == s@[i + 2]);
                }
                let b1 = s[i + 1];
                let b2 = s[i + 2];
                let lo1: u8 = if b0 == 0xe0 {
                    0xa0
                } else if b0 == 0xed {
                    0x80
                } else {
                    0x80
                };
                let hi1: u8 = if b0 == 0xed {
                    0x9f
                } else {
                    0xbf
                };
                if lo1 <= b1 && b1 <= hi1 && 0x80 <= b2 && b2 <= 0xbf {
                    proof {
                        assert(tail.skip(3) =~= s@.skip(i + 3));
                    }
                    i = i + 3;
                } else {
                    return false;
                }
            } else {
                return false;
            }
        } else if 0xf0 <= b0 && b0 <= 0xf4 {
            if n - i >= 4 {
                proof {
                    assert(tail[1] == s@[i + 1]);
                    assert(tail[2] == s@[i + 2]);
                    assert(tail[3] == s@[i + 3]);
                }
                let b1 = s[i + 1];
                let b2 = s[i + 2];
                let b3 = s[i + 3];
                let lo1: u8 = if b0 == 0xf0 {
                    0x90
                } else {
                    0x80
                };
                let hi1: u8 = if b0 == 0xf4 {
                    0x8f
                } else {
                    0xbf
                };
                if lo1 <= b1 && b1 <= hi1 && 0x80 <= b2 && b2 <= 0xbf && 0x80 <= b3 && b3 <= 0xbf {
                    proof {
                        assert(tail.skip(4) =~= s@.skip(i + 4));
                    }
                    i = i + 4;
                } else {
                    return false;
                }
            } else {
                return false;
            }
        } else {
            return false;
        }
    }
    proof {
        assert(s@.skip(n as int) =~= Seq::<u8>::empty());
    }
    true
}

/// Appends the decimal rendering of `n` to `out`.
pub fn push_decimal(n: usize, out: &mut Vec<u8>)
    ensures
        final(out)@ == old(out)@ + dec_digits(n as nat),
    decreases n,
{
    if n < 10 {
        out.push(0x30 + n as u8);
    } else {
        push_decimal(n / 10, out);
        out.push(0x30 + (n % 10) as u8);
    }
    proof {
        assert(out@ =~= old(out)@ + dec_digits(n as nat));
    }
}

/// Appends all of `bs` to `out`.
pub fn push_bytes(out: &mut Vec<u8>, bs: &[u8])
    ensures
        final(out)@ == old(out)@ + bs@,
{
    let n = bs.len();
    let mut i: usize = 0;
    while i < n
        invariant
            n == bs@.len(),
            i <= n,
            out@ == old(out)@ + bs@.take(i as int),
        decreases n - i,
    {
        out.push(bs[i]);
        proof {
            assert(out@ =~= old(out)@ + bs@.take(i + 1));
        }
        i = i + 1;
    }
    proof {
        assert(bs@.take(n as int) =~= bs@);
    }
}

} // verus!
