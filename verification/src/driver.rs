//! The shared argument plans of the entry points: every entry point
//! decodes one required string first, optionally some typed arguments
//! after it, and finally checks that nothing is left over.

use vstd::prelude::*;

use crate::arg_parser::{
    drain_count, raw_step, raw_transition, ArgParser, Error, ErrorKind, RawStep,
};
use crate::render::{dec_digits, error_message};
use crate::token::{LiteralType, LiteralValue, Location, Token};
use vstd::string::StringExecFns;

verus! {

/// An entry-point-level failure: either a structured decode error, or an
/// arity complaint layered above the decoder.
#[derive(Debug)]
pub enum TopError {
    /// A decode error, forwarded unchanged.
    Decode(Error),
    /// The stream was exhausted before all required positions were
    /// filled.
    TooFewArguments { given: usize, expected: usize },
    /// Tokens were still left after all positions were attempted; the
    /// location is the first leftover argument's.
    TooManyArguments { span: Location, given: usize, expected: usize },
}

/// The result `decode_required_string` owes for a stream `s` on which
/// `parsed0` arguments were already decoded: the string and its
/// location; or too-few-arguments at exhaustion; or the decoder's own
/// error, forwarded.
pub open spec fn required_string_result(
    s: Seq<Token>,
    parsed0: nat,
    expected: usize,
    r: Result<(String, Location), TopError>,
) -> bool {
    match raw_step(s) {
        RawStep::Exhausted => r matches Err(t) && t matches TopError::TooFewArguments {
            given,
            expected: e,
        } && given == parsed0 && e == expected,
        RawStep::Value { value, loc, .. } => match value {
            LiteralValue::String(v) => r matches Ok(p) && p.0@ == v@ && p.1 == loc,
            _ => r matches Err(t) && t matches TopError::Decode(e) && e.kind matches
                ErrorKind::BadType { given, expected: x } && given == value.kind_spec() && x
                == LiteralType::String && e.span == loc,
        },
        RawStep::Fail { text, loc, .. } => r matches Err(t) && t matches TopError::Decode(e)
            && e.kind matches ErrorKind::UnexpectedToken(u) && u@ == text && e.span == loc,
    }
}

/// Decode the one required leading string argument of an entry point.
///
/// `expected` is the arity named in the too-few-arguments complaint.
pub fn decode_required_string(parser: &mut ArgParser, expected: usize) -> (r: Result<
    (String, Location),
    TopError,
>)
    ensures
        raw_transition(*old(parser), *final(parser)),
        required_string_result(old(parser).remaining(), old(parser).parsed_count(), expected, r),
{
    let given = parser.parsed_so_far();
    match parser.next_string() {
        Err(e) => Err(TopError::Decode(e)),
        Ok(Some(p)) => Ok(p),
        Ok(None) => Err(TopError::TooFewArguments { given, expected }),
    }
}

/// What `expect_exhausted` does to the decoder: nothing at exhaustion;
/// after a leftover argument it drains the stream to count the total;
/// after a grammar error it stands just past the offending token.
pub open spec fn exhausted_transition(pre: ArgParser, post: ArgParser) -> bool {
    match raw_step(pre.remaining()) {
        RawStep::Exhausted => post.remaining() == pre.remaining() && post.parsed_count()
            == pre.parsed_count(),
        RawStep::Value { .. } => post.remaining() == Seq::<Token>::empty() && post.parsed_count()
            == pre.parsed_count() + drain_count(pre.remaining()),
        RawStep::Fail { consumed, .. } => post.remaining() == pre.remaining().skip(consumed)
            && post.parsed_count() == pre.parsed_count(),
    }
}

/// The result `expect_exhausted` owes: success at exhaustion; a
/// too-many-arguments complaint anchored at the first leftover
/// argument, counting everything that was supplied; or the decoder's
/// own error, forwarded.
pub open spec fn exhausted_result(
    s: Seq<Token>,
    parsed0: nat,
    expected: usize,
    r: Result<(), TopError>,
) -> bool {
    match raw_step(s) {
        RawStep::Exhausted => r is Ok,
        RawStep::Value { loc, .. } => r matches Err(t) && t matches TopError::TooManyArguments {
            span,
            given,
            expected: e,
        } && span == loc && given == parsed0 + drain_count(s) && e == expected,
        RawStep::Fail { text, loc, .. } => r matches Err(t) && t matches TopError::Decode(e)
            && e.kind matches ErrorKind::UnexpectedToken(u) && u@ == text && e.span == loc,
    }
}

/// Check that no argument is left. If one is, report how many arguments
/// were supplied in all against the entry point's arity `expected`,
/// anchored at the first leftover argument's location.
pub fn expect_exhausted(parser: &mut ArgParser, expected: usize) -> (r: Result<(), TopError>)
    ensures
        exhausted_transition(*old(parser), *final(parser)),
        exhausted_result(old(parser).remaining(), old(parser).parsed_count(), expected, r),
{
    match parser.ignore_next() {
        Err(e) => Err(TopError::Decode(e)),
        Ok(None) => Ok(()),
        Ok(Some(span)) => {
            let given = parser.count_arguments();
            Err(TopError::TooManyArguments { span, given, expected })
        },
    }
}

/// The value an optional explicit argument leaves in place: the
/// argument itself when one was given, the base value otherwise. The
/// IPv6 socket entry point decodes flow info and scope id with it,
/// letting an explicit argument override what the address text
/// carried.
pub fn apply_override(base: u32, argument: Option<u32>) -> (r: u32)
    ensures
        r == (match argument {
            Some(v) => v,
            None => base,
        }),
{
    match argument {
        Some(v) => v,
        None => base,
    }
}

/// The user-facing message for an entry-point-level failure.
pub open spec fn top_error_message(t: TopError) -> Seq<char> {
    match t {
        TopError::Decode(e) => error_message(e.kind),
        TopError::TooFewArguments { given, expected } => "Too few argument: Given "@ + dec_digits(
            given as nat,
        ) + ", expected "@ + dec_digits(expected as nat),
        TopError::TooManyArguments { span, given, expected } => "Too many arguments: Given "@
            + dec_digits(given as nat) + ", expected "@ + dec_digits(expected as nat),
    }
}

impl TopError {
    /// The location this failure is anchored to, where it has one of its
    /// own; a too-few-arguments complaint is anchored at the call site
    /// by the host instead.
    pub fn span(&self) -> (s: Option<Location>)
        ensures
            match *self {
                TopError::Decode(e) => s matches Some(l) && l == e.span,
                TopError::TooFewArguments { .. } => s is None,
                TopError::TooManyArguments { span, .. } => s matches Some(l) && l == span,
            },
    {
        match self {
            TopError::Decode(e) => Some(e.span),
            TopError::TooFewArguments { .. } => None,
            TopError::TooManyArguments { span, .. } => Some(*span),
        }
    }

    /// Render this failure's user-facing message.
    pub fn message(&self) -> (r: String)
        ensures
            r@ == top_error_message(*self),
    {
        match self {
            TopError::Decode(e) => e.message(),
            TopError::TooFewArguments { given, expected } => {
                let mut s = "Too few argument: Given ".to_owned();
                s.append(crate::render::format_decimal(*given as u128).as_str());
                s.append(", expected ");
                s.append(crate::render::format_decimal(*expected as u128).as_str());
                proof {
                    assert(s@ =~= top_error_message(*self));
                }
                s
            },
            TopError::TooManyArguments { span, given, expected } => {
                let mut s = "Too many arguments: Given ".to_owned();
                s.append(crate::render::format_decimal(*given as u128).as_str());
                s.append(", expected ");
                s.append(crate::render::format_decimal(*expected as u128).as_str());
                proof {
                    assert(s@ =~= top_error_message(*self));
                }
                s
            },
        }
    }
}

} // verus!
