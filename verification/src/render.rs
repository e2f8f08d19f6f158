//! Rendering decoded data back to source text, and errors to messages.
//!
//! The output of a successful entry point is the text of a
//! fully-qualified constructor call for the corresponding address or
//! socket type; the host hands that text to its generation pipeline.
//! The output of a failed one is a message describing the first error.

use vstd::prelude::*;

use crate::arg_parser::{Error, ErrorKind};
use crate::token::LiteralType;
use vstd::string::StringExecFns;

verus! {

/// The character for a single decimal digit.
pub open spec fn dec_digit_char(d: nat) -> char {
    if d == 0 {
        '0'
    } else if d == 1 {
        '1'
    } else if d == 2 {
        '2'
    } else if d == 3 {
        '3'
    } else if d == 4 {
        '4'
    } else if d == 5 {
        '5'
    } else if d == 6 {
        '6'
    } else if d == 7 {
        '7'
    } else if d == 8 {
        '8'
    } else {
        '9'
    }
}

/// The usual decimal representation of `n`: most significant digit
/// first, no leading zeros (a lone zero for 0).
pub open spec fn dec_digits(n: nat) -> Seq<char>
    decreases n,
{
    if n < 10 {
        seq![dec_digit_char(n)]
    } else {
        dec_digits(n / 10).push(dec_digit_char(n % 10))
    }
}

/// The one-character string for a single decimal digit.
fn digit_str(d: u8) -> (c: &'static str)
    requires
        d < 10,
    ensures
        c@ =~= seq![dec_digit_char(d as nat)],
{
    proof {
        reveal_strlit("0");
        reveal_strlit("1");
        reveal_strlit("2");
        reveal_strlit("3");
        reveal_strlit("4");
        reveal_strlit("5");
        reveal_strlit("6");
        reveal_strlit("7");
        reveal_strlit("8");
        reveal_strlit("9");
    }
    if d == 0 {
        "0"
    } else if d == 1 {
        "1"
    } else if d == 2 {
        "2"
    } else if d == 3 {
        "3"
    } else if d == 4 {
        "4"
    } else if d == 5 {
        "5"
    } else if d == 6 {
        "6"
    } else if d == 7 {
        "7"
    } else if d == 8 {
        "8"
    } else {
        "9"
    }
}

/// Append the decimal representation of `n` to `out`.
fn push_decimal(out: &mut String, n: u128)
    ensures
        final(out)@ == old(out)@ + dec_digits(n as nat),
    decreases n,
{
    if n < 10 {
        out.append(digit_str(n as u8));
    } else {
        push_decimal(out, n / 10);
        out.append(digit_str((n % 10) as u8));
        proof {
            assert(old(out)@ + dec_digits((n / 10) as nat) + seq![
                dec_digit_char((n % 10) as nat),
            ] =~= old(out)@ + dec_digits(n as nat));
        }
    }
}

/// The decimal representation of `n` as a string.
pub fn format_decimal(n: u128) -> (s: String)
    ensures
        s@ == dec_digits(n as nat),
{
    let mut s = String::new();
    push_decimal(&mut s, n);
    proof {
        assert(Seq::<char>::empty() + dec_digits(n as nat) =~= dec_digits(n as nat));
    }
    s
}

/// The display name of a literal kind, as used in type-mismatch
/// messages.
pub open spec fn literal_type_name(t: LiteralType) -> Seq<char> {
    match t {
        LiteralType::Bool => "bool"@,
        LiteralType::Byte => "u8"@,
        LiteralType::ByteString => "[u8]"@,
        LiteralType::Char => "char"@,
        LiteralType::String => "str"@,
        LiteralType::Float => "float"@,
        LiteralType::Integer => "int"@,
    }
}

impl LiteralType {
    /// The display name of this literal kind.
    pub fn name(&self) -> (r: &'static str)
        ensures
            r@ == literal_type_name(*self),
    {
        match self {
            LiteralType::Bool => "bool",
            LiteralType::Byte => "u8",
            LiteralType::ByteString => "[u8]",
            LiteralType::Char => "char",
            LiteralType::String => "str",
            LiteralType::Float => "float",
            LiteralType::Integer => "int",
        }
    }
}

/// The user-facing message for a decode error, one line per error.
pub open spec fn error_message(k: ErrorKind) -> Seq<char> {
    match k {
        ErrorKind::BadType { given, expected } => "Unexpected type: given `"@ + literal_type_name(
            given,
        ) + "`, expected `"@ + literal_type_name(expected) + "`\n"@,
        ErrorKind::OutOfBound => "The integer value is out of bounds for the required type\n"@,
        ErrorKind::UnexpectedToken(t) => "Unexpected token `"@ + t@ + "`\n"@,
    }
}

impl Error {
    /// Render this error's user-facing message.
    pub fn message(&self) -> (r: String)
        ensures
            r@ == error_message(self.kind),
    {
        match &self.kind {
            ErrorKind::BadType { given, expected } => {
                let mut s = "Unexpected type: given `".to_owned();
                s.append(given.name());
                s.append("`, expected `");
                s.append(expected.name());
                s.append("`\n");
                proof {
                    assert(s@ =~= error_message(self.kind));
                }
                s
            },
            ErrorKind::OutOfBound => "The integer value is out of bounds for the required type\n"
                .to_owned(),
            ErrorKind::UnexpectedToken(t) => {
                let mut s = "Unexpected token `".to_owned();
                s.append(t.as_str());
                s.append("`\n");
                proof {
                    assert(s@ =~= error_message(self.kind));
                }
                s
            },
        }
    }
}

} // verus!
