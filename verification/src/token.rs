//! The token model the decoder works on.
//!
//! The host macro engine supplies an ordered sequence of lexical tokens.
//! Each one is either a literal (already classified, carrying its decoded
//! payload), a punctuation token carrying a single character, or something
//! else. Every token also carries its raw source text (used verbatim in
//! diagnostics) and an opaque source location.

use vstd::prelude::*;

verus! {

/// An opaque handle to a source location, used only to anchor diagnostics.
///
/// The decoder never branches on a location; it only carries it through to
/// the error it reports. The host that supplies the tokens chooses the
/// identifiers and maps them back to real source spans when rendering.
#[derive(Clone, Copy, Debug, PartialEq, Eq, Structural)]
pub struct Location {
    pub id: usize,
}

/// The kind of a literal, as reported in type-mismatch diagnostics.
#[derive(Clone, Copy, Debug, PartialEq, Eq, Structural)]
pub enum LiteralType {
    Bool,
    Integer,
    Float,
    Char,
    String,
    Byte,
    ByteString,
}

/// A classified literal with its decoded payload.
///
/// An integer literal carries its exact value when that value fits in
/// `u128`, and `None` when the written number is even larger; such a
/// literal still has kind `Integer`, and coercing it to any requested
/// representation reports an out-of-bounds error. A float literal carries
/// its source digits rather than a binary approximation; no entry point
/// accepts floats, so only its kind is ever consulted.
#[derive(Clone, Debug, PartialEq)]
pub enum LiteralValue {
    Bool(bool),
    Integer(Option<u128>),
    Float(String),
    Char(char),
    String(String),
    Byte(u8),
    ByteString(Vec<u8>),
}

impl LiteralValue {
    /// The kind of this literal, for diagnostics.
    pub open spec fn kind_spec(&self) -> LiteralType {
        match self {
            LiteralValue::Bool(_) => LiteralType::Bool,
            LiteralValue::Integer(_) => LiteralType::Integer,
            LiteralValue::Float(_) => LiteralType::Float,
            LiteralValue::Char(_) => LiteralType::Char,
            LiteralValue::String(_) => LiteralType::String,
            LiteralValue::Byte(_) => LiteralType::Byte,
            LiteralValue::ByteString(_) => LiteralType::ByteString,
        }
    }

    /// The kind of this literal, for diagnostics.
    pub fn kind(&self) -> (k: LiteralType)
        ensures
            k == self.kind_spec(),
    {
        match self {
            LiteralValue::Bool(_) => LiteralType::Bool,
            LiteralValue::Integer(_) => LiteralType::Integer,
            LiteralValue::Float(_) => LiteralType::Float,
            LiteralValue::Char(_) => LiteralType::Char,
            LiteralValue::String(_) => LiteralType::String,
            LiteralValue::Byte(_) => LiteralType::Byte,
            LiteralValue::ByteString(_) => LiteralType::ByteString,
        }
    }
}

/// What sort of token this is: a classified literal, a single punctuation
/// character, or anything else the host may produce (identifiers, groups).
#[derive(Clone, Debug, PartialEq)]
pub enum TokenKind {
    Literal(LiteralValue),
    Punct(char),
    Other,
}

/// One lexical token: its kind, its raw source text, and its location.
#[derive(Clone, Debug, PartialEq)]
pub struct Token {
    pub kind: TokenKind,
    pub text: String,
    pub loc: Location,
}

/// Whether a token is a literal token.
pub open spec fn is_literal_token(t: Token) -> bool {
    t.kind matches TokenKind::Literal(_)
}

/// Whether a token is the single recognized delimiter: a comma.
pub open spec fn is_comma_token(t: Token) -> bool {
    t.kind matches TokenKind::Punct(c) && c == ','
}

impl Token {
    /// A literal token.
    pub fn literal(value: LiteralValue, text: String, loc: Location) -> (t: Token)
        ensures
            t == (Token { kind: TokenKind::Literal(value), text, loc }),
    {
        Token { kind: TokenKind::Literal(value), text, loc }
    }

    /// A punctuation token carrying the single character `ch`.
    pub fn punct(ch: char, text: String, loc: Location) -> (t: Token)
        ensures
            t == (Token { kind: TokenKind::Punct(ch), text, loc }),
    {
        Token { kind: TokenKind::Punct(ch), text, loc }
    }

    /// A token that is neither a literal nor punctuation.
    pub fn other(text: String, loc: Location) -> (t: Token)
        ensures
            t == (Token { kind: TokenKind::Other, text, loc }),
    {
        Token { kind: TokenKind::Other, text, loc }
    }
}

} // verus!
