//! The literal classifier: turning one literal token's source text into
//! a [`LiteralValue`].
//!
//! The lexical work — recognizing the literal's kind and decoding its
//! payload, bases, escapes and suffixes included — is done by the
//! `litrs` crate behind the one trusted declaration below. What a given
//! text classifies to is a function of its characters alone, so the
//! result carries a name, [`classified_of`], and the public
//! constructor's contract is exact in terms of that name.

use vstd::prelude::*;

use crate::token::{LiteralValue, Location, Token, TokenKind};

verus! {

/// What one literal token's source text classifies to: its kind and
/// decoded payload, or `None` for text that is not a literal the
/// taxonomy covers. The classification depends on the characters of
/// the text alone; its definition is the lexical grammar of Rust
/// literals — bases, escapes, suffixes — which is not restated here.
pub uninterp spec fn classified_of(s: Seq<char>) -> Option<LiteralValue>;

/// Relies on `litrs::Literal::parse` and the per-kind `value` accessors
/// (`BoolLit`, `IntegerLit`, `CharLit`, `StringLit`, `ByteLit`,
/// `ByteStringLit`): together they classify a literal's source text and
/// decode its payload, escapes resolved, and their result depends on
/// the text alone. An integer literal's exact value is read back as a
/// `u128`, with `None` inside when even that cannot hold the written
/// number; a float literal keeps its source text as its payload; text
/// that is no literal, or a literal kind outside the taxonomy (`litrs`
/// also knows C strings), yields `None`.
#[verifier::external_body]
fn classify_text(text: &str) -> (r: Option<LiteralValue>)
    ensures
        r == classified_of(text@),
{
    match litrs::Literal::parse(text.to_string()).ok()? {
        litrs::Literal::Bool(b) => Some(LiteralValue::Bool(b.value())),
        litrs::Literal::Integer(i) => Some(LiteralValue::Integer(i.value::<u128>())),
        litrs::Literal::Float(_) => Some(LiteralValue::Float(text.to_string())),
        litrs::Literal::Char(c) => Some(LiteralValue::Char(c.value())),
        litrs::Literal::String(s) => Some(LiteralValue::String(s.value().to_string())),
        litrs::Literal::Byte(b) => Some(LiteralValue::Byte(b.value())),
        litrs::Literal::ByteString(b) => Some(LiteralValue::ByteString(b.value().to_vec())),
        _ => None,
    }
}

impl Token {
    /// Build a literal token from its source text, classifying it and
    /// decoding its payload. Succeeds if and only if the text
    /// classifies, and then carries exactly the classified value,
    /// under the given text and location.
    pub fn from_literal_text(text: String, loc: Location) -> (t: Option<Token>)
        ensures
            match classified_of(text@) {
                Some(value) => t matches Some(tok) && tok.kind == TokenKind::Literal(value)
                    && tok.text@ == text@ && tok.loc == loc,
                None => t is None,
            },
    {
        match classify_text(text.as_str()) {
            Some(value) => Some(Token { kind: TokenKind::Literal(value), text, loc }),
            None => None,
        }
    }
}

} // verus!
