//! Lexical classification of input bytes.
//!
//! Every byte of the input (and the synthetic end-of-input byte) is mapped to
//! a small category; the transition table is indexed by (state, category).
//! Bytes outside the ASCII range all share the `Etc` category, so the bodies
//! of strings are scanned as opaque byte runs and multi-byte UTF-8 sequences
//! are only validated when a string is finalized.

use vstd::prelude::*;

verus! {

/// The lexical category of one input byte.
#[derive(Clone, Copy, Debug, PartialEq, Eq, Structural)]
pub enum Category {
    /// Space, tab, carriage return, line feed.
    Ws,
    /// `{`
    LBrace,
    /// `}`
    RBrace,
    /// `[`
    LBrack,
    /// `]`
    RBrack,
    /// `:`
    Colon,
    /// `,`
    Comma,
    /// `"`
    Quote,
    /// `\`
    Backslash,
    /// `/`
    Slash,
    /// `-`
    Minus,
    /// `+`
    Plus,
    /// `0`
    Zero,
    /// `1` through `9`
    Digit,
    /// `.`
    Dot,
    /// `a`
    LowA,
    /// `b`
    LowB,
    /// `e`
    LowE,
    /// `f`
    LowF,
    /// `l`
    LowL,
    /// `n`
    LowN,
    /// `r`
    LowR,
    /// `s`
    LowS,
    /// `t`
    LowT,
    /// `u`
    LowU,
    /// `c` or `d` (hex digits with no other lexical role)
    HexLo,
    /// `E` (both a hex digit and an exponent marker)
    UpE,
    /// `A`, `B`, `C`, `D` or `F` (upper-case hex digits)
    HexUp,
    /// Every other byte, including all bytes above the ASCII range.
    Etc,
}

/// The category of a raw input byte: a pure, total classification.
pub open spec fn spec_classify(ch: u8) -> Category {
    if ch == 0x20 || ch == 0x09 || ch == 0x0d || ch == 0x0a {
        Category::Ws
    } else if ch == 0x7b {
        Category::LBrace
    } else if ch == 0x7d {
        Category::RBrace
    } else if ch == 0x5b {
        Category::LBrack
    } else if ch == 0x5d {
        Category::RBrack
    } else if ch == 0x3a {
        Category::Colon
    } else if ch == 0x2c {
        Category::Comma
    } else if ch == 0x22 {
        Category::Quote
    } else if ch == 0x5c {
        Category::Backslash
    } else if ch == 0x2f {
        Category::Slash
    } else if ch == 0x2d {
        Category::Minus
    } else if ch == 0x2b {
        Category::Plus
    } else if ch == 0x30 {
        Category::Zero
    } else if 0x31 <= ch && ch <= 0x39 {
        Category::Digit
    } else if ch == 0x2e {
        Category::Dot
    } else if ch == 0x61 {
        Category::LowA
    } else if ch == 0x62 {
        Category::LowB
    } else if ch == 0x65 {
        Category::LowE
    } else if ch == 0x66 {
        Category::LowF
    } else if ch == 0x6c {
        Category::LowL
    } else if ch == 0x6e {
        Category::LowN
    } else if ch == 0x72 {
        Category::LowR
    } else if ch == 0x73 {
        Category::LowS
    } else if ch == 0x74 {
        Category::LowT
    } else if ch == 0x75 {
        Category::LowU
    } else if ch == 0x63 || ch == 0x64 {
        Category::HexLo
    } else if ch == 0x45 {
        Category::UpE
    } else if ch == 0x41 || ch == 0x42 || ch == 0x43 || ch == 0x44 || ch == 0x46 {
        Category::HexUp
    } else {
        Category::Etc
    }
}

/// Classifies one input byte.
pub fn classify(ch: u8) -> (c: Category)
    ensures
        c == spec_classify(ch),
{
    match ch {
        0x20 | 0x09 | 0x0d | 0x0a => Category::Ws,
        0x7b => Category::LBrace,
        0x7d => Category::RBrace,
        0x5b => Category::LBrack,
        0x5d => Category::RBrack,
        0x3a => Category::Colon,
        0x2c => Category::Comma,
        0x22 => Category::Quote,
        0x5c => Category::Backslash,
        0x2f => Category::Slash,
        0x2d => Category::Minus,
        0x2b => Category::Plus,
        0x30 => Category::Zero,
        0x31..=0x39 => Category::Digit,
        0x2e => Category::Dot,
        0x61 => Category::LowA,
        0x62 => Category::LowB,
        0x65 => Category::LowE,
        0x66 => Category::LowF,
        0x6c => Category::LowL,
        0x6e => Category::LowN,
        0x72 => Category::LowR,
        0x73 => Category::LowS,
        0x74 => Category::LowT,
        0x75 => Category::LowU,
        0x63 | 0x64 => Category::HexLo,
        0x45 => Category::UpE,
        0x41..=0x44 | 0x46 => Category::HexUp,
        _ => Category::Etc,
    }
}

} // verus!
