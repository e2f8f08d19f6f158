//! The argument decoder: a one-pass, one-token-lookahead consumer of a
//! token stream that enforces the `literal (, literal)*` grammar, coerces
//! each literal to a caller-requested type, and counts the arguments it
//! has decoded.

use vstd::prelude::*;

use crate::numeric::FromIntegerLiteral;
use crate::token::{is_comma_token, LiteralType, LiteralValue, Location, Token, TokenKind};

verus! {

/// A structured decode error: what went wrong, and where.
#[derive(Debug)]
pub struct Error {
    pub kind: ErrorKind,
    pub span: Location,
}

/// The closed taxonomy of decode errors.
#[derive(Debug, PartialEq)]
pub enum ErrorKind {
    /// The literal had the wrong kind for the requested coercion.
    BadType { given: LiteralType, expected: LiteralType },
    /// An integer literal's value does not fit the requested representation.
    OutOfBound,
    /// The grammar was violated; carries the offending token's raw text.
    UnexpectedToken(String),
}

impl Error {
    /// The location the error is anchored to.
    pub fn span(&self) -> (s: Location)
        ensures
            s == self.span,
    {
        self.span
    }
}

/// The outcome of consuming one raw argument from a token sequence:
/// the stream was already exhausted, one literal argument (with its
/// optional comma separator) was consumed, or the grammar was violated.
/// `consumed` is how many tokens the step removed from the stream.
pub enum RawStep {
    Exhausted,
    Value { value: LiteralValue, loc: Location, consumed: int },
    Fail { text: Seq<char>, loc: Location, consumed: int },
}

/// What one raw decode step does to the token sequence `s`.
///
/// This is the grammar in one place: an argument is a literal token,
/// followed either by the end of the stream or by a comma separator.
/// A non-literal in argument position fails at that token; a separator
/// position holding anything but a comma fails at that token. A failing
/// step still consumes through the offending token: the decoder never
/// looks behind.
pub open spec fn raw_step(s: Seq<Token>) -> RawStep {
    if s.len() == 0 {
        RawStep::Exhausted
    } else {
        match s[0].kind {
            TokenKind::Literal(value) => {
                if s.len() == 1 {
                    RawStep::Value { value, loc: s[0].loc, consumed: 1 }
                } else if is_comma_token(s[1]) {
                    RawStep::Value { value, loc: s[0].loc, consumed: 2 }
                } else {
                    RawStep::Fail { text: s[1].text@, loc: s[1].loc, consumed: 2 }
                }
            },
            _ => RawStep::Fail { text: s[0].text@, loc: s[0].loc, consumed: 1 },
        }
    }
}

/// How one raw decode step relates the decoder's state before and after:
/// the remaining stream loses exactly the consumed tokens, and the count
/// of parsed arguments grows by one exactly when a value was decoded.
pub open spec fn raw_transition(pre: ArgParser, post: ArgParser) -> bool {
    match raw_step(pre.remaining()) {
        RawStep::Exhausted => post.remaining() == pre.remaining() && post.parsed_count()
            == pre.parsed_count(),
        RawStep::Value { consumed, .. } => post.remaining() == pre.remaining().skip(consumed)
            && post.parsed_count() == pre.parsed_count() + 1,
        RawStep::Fail { consumed, .. } => post.remaining() == pre.remaining().skip(consumed)
            && post.parsed_count() == pre.parsed_count(),
    }
}

/// The result `next_raw` owes for the token sequence `s`: `Ok(None)` at
/// exhaustion, the literal and its location on success, and otherwise an
/// `UnexpectedToken` error carrying the offending token's text, anchored
/// at that token's location.
pub open spec fn raw_result_matches(
    s: Seq<Token>,
    r: Result<Option<(LiteralValue, Location)>, Error>,
) -> bool {
    match raw_step(s) {
        RawStep::Exhausted => r matches Ok(o) && o is None,
        RawStep::Value { value, loc, .. } => r matches Ok(o) && o matches Some(p) && p.0 == value
            && p.1 == loc,
        RawStep::Fail { text, loc, .. } => r matches Err(e) && e.kind matches
            ErrorKind::UnexpectedToken(t) && t@ == text && e.span == loc,
    }
}

/// The result `next_string` owes for `s`: as `next_raw`, except that a
/// decoded literal of any kind but `String` becomes a `BadType` error
/// naming the given and the expected kind, anchored at the literal.
pub open spec fn string_result_matches(
    s: Seq<Token>,
    r: Result<Option<(String, Location)>, Error>,
) -> bool {
    match raw_step(s) {
        RawStep::Exhausted => r matches Ok(o) && o is None,
        RawStep::Value { value, loc, .. } => match value {
            LiteralValue::String(v) => r matches Ok(o) && o matches Some(p) && p.0@ == v@ && p.1
                == loc,
            _ => r matches Err(e) && e.kind matches ErrorKind::BadType { given, expected } && given
                == value.kind_spec() && expected == LiteralType::String && e.span == loc,
        },
        RawStep::Fail { text, loc, .. } => r matches Err(e) && e.kind matches
            ErrorKind::UnexpectedToken(t) && t@ == text && e.span == loc,
    }
}

/// The result `next_integer::<I>` owes for `s`: as `next_raw`, except
/// that a non-integer literal becomes a `BadType` error, and an integer
/// literal becomes the exactly-converted value when it fits `I`'s range
/// and an `OutOfBound` error when it does not (including a written
/// number too large to carry at all).
pub open spec fn integer_result_matches<I: FromIntegerLiteral>(
    s: Seq<Token>,
    r: Result<Option<(I, Location)>, Error>,
) -> bool {
    match raw_step(s) {
        RawStep::Exhausted => r matches Ok(o) && o is None,
        RawStep::Value { value, loc, .. } => match value {
            LiteralValue::Integer(n) => match n {
                Some(v) => if v <= I::max_spec() {
                    r matches Ok(o) && o matches Some(p) && p.0.value_spec() == v && p.1 == loc
                } else {
                    r matches Err(e) && e.kind is OutOfBound && e.span == loc
                },
                None => r matches Err(e) && e.kind is OutOfBound && e.span == loc,
            },
            _ => r matches Err(e) && e.kind matches ErrorKind::BadType { given, expected } && given
                == value.kind_spec() && expected == LiteralType::Integer && e.span == loc,
        },
        RawStep::Fail { text, loc, .. } => r matches Err(e) && e.kind matches
            ErrorKind::UnexpectedToken(t) && t@ == text && e.span == loc,
    }
}

/// The result `ignore_next` owes for `s`: the consumed argument's
/// location, `None` at exhaustion, and grammar errors as `next_raw`.
pub open spec fn ignore_result_matches(s: Seq<Token>, r: Result<Option<Location>, Error>) -> bool {
    match raw_step(s) {
        RawStep::Exhausted => r matches Ok(o) && o is None,
        RawStep::Value { loc, .. } => r matches Ok(o) && o matches Some(l) && l == loc,
        RawStep::Fail { text, loc, .. } => r matches Err(e) && e.kind matches
            ErrorKind::UnexpectedToken(t) && t@ == text && e.span == loc,
    }
}

/// How many arguments draining the sequence `s` decodes: raw steps are
/// taken until exhaustion, counting the successful ones and skipping
/// past grammar errors without counting them.
pub open spec fn drain_count(s: Seq<Token>) -> nat
    decreases s.len(),
{
    match raw_step(s) {
        RawStep::Exhausted => 0,
        RawStep::Value { consumed, .. } => 1 + drain_count(s.skip(consumed)),
        RawStep::Fail { consumed, .. } => drain_count(s.skip(consumed)),
    }
}

/// What `count_arguments` does: it returns the arguments decoded so far
/// plus everything a full drain of the remaining stream still decodes,
/// and it leaves the stream exhausted with the count recorded.
pub open spec fn count_transition(pre: ArgParser, post: ArgParser, r: usize) -> bool {
    &&& r == pre.parsed_count() + drain_count(pre.remaining())
    &&& post.parsed_count() == r
    &&& post.remaining() == Seq::<Token>::empty()
}

/// The argument decoder. It exclusively owns the still-unconsumed suffix
/// of the token stream and the running count of decoded arguments.
pub struct ArgParser {
    parsed: usize,
    stream: Vec<Token>,
}

impl ArgParser {
    /// The decoder never holds more work than it can count: the parsed
    /// count plus the tokens still pending fits the count's type.
    #[verifier::type_invariant]
    spec fn wf(self) -> bool {
        self.parsed as nat + self.stream@.len() <= usize::MAX as nat
    }

    /// The still-unconsumed suffix of the token stream.
    pub closed spec fn remaining(self) -> Seq<Token> {
        self.stream@
    }

    /// How many arguments have been successfully decoded so far.
    pub closed spec fn parsed_count(self) -> nat {
        self.parsed as nat
    }

    /// A decoder over the given tokens, with nothing decoded yet.
    pub fn new(tokens: Vec<Token>) -> (p: ArgParser)
        ensures
            p.remaining() == tokens@,
            p.parsed_count() == 0,
    {
        let n: usize = tokens.len();
        proof {
            assert(tokens@.len() == n);
        }
        ArgParser { parsed: 0, stream: tokens }
    }

    /// How many arguments have been successfully decoded so far, without
    /// touching the stream.
    pub fn parsed_so_far(&self) -> (r: usize)
        ensures
            r == self.parsed_count(),
    {
        self.parsed
    }

    /// Consume one raw argument: one literal token, followed by the end
    /// of the stream or by a comma separator. Returns `Ok(None)` at
    /// exhaustion, the literal and its location on success, and an
    /// `UnexpectedToken` error anchored at the offending token on a
    /// grammar violation. A failing call does not roll back: the
    /// decoder is left positioned after the failing token.
    pub fn next_raw(&mut self) -> (r: Result<Option<(LiteralValue, Location)>, Error>)
        ensures
            raw_transition(*old(self), *final(self)),
            raw_result_matches(old(self).remaining(), r),
    {
        proof {
            use_type_invariant(&*self);
        }
        if self.stream.len() == 0 {
            return Ok(None);
        }
        let ghost s = self.stream@;
        let mut stream: Vec<Token> = Vec::new();
        std::mem::swap(&mut stream, &mut self.stream);
        let token = stream.remove(0);
        match token.kind {
            TokenKind::Literal(value) => {
                if stream.len() > 0 {
                    let sep = stream.remove(0);
                    let sep_is_comma = match &sep.kind {
                        TokenKind::Punct(c) => *c == ',',
                        _ => false,
                    };
                    if !sep_is_comma {
                        self.stream = stream;
                        proof {
                            assert(self.stream@ =~= s.skip(2));
                        }
                        return Err(
                            Error { kind: ErrorKind::UnexpectedToken(sep.text), span: sep.loc },
                        );
                    }
                    proof {
                        assert(stream@ =~= s.skip(2));
                    }
                } else {
                    proof {
                        assert(stream@ =~= s.skip(1));
                    }
                }
                self.stream = stream;
                self.parsed = self.parsed + 1;
                Ok(Some((value, token.loc)))
            },
            _ => {
                self.stream = stream;
                proof {
                    assert(self.stream@ =~= s.skip(1));
                }
                Err(Error { kind: ErrorKind::UnexpectedToken(token.text), span: token.loc })
            },
        }
    }

    /// Coerce one raw argument to a string payload. A literal of any
    /// other kind is rejected with `BadType`, anchored at the literal.
    pub fn next_string(&mut self) -> (r: Result<Option<(String, Location)>, Error>)
        ensures
            raw_transition(*old(self), *final(self)),
            string_result_matches(old(self).remaining(), r),
    {
        match self.next_raw()? {
            Some((literal, span)) => Ok(Some((Self::try_string_literal(literal, span)?, span))),
            None => Ok(None),
        }
    }

    /// Coerce one raw argument to an integer of the caller-chosen
    /// representation `I`. A literal of any other kind is rejected with
    /// `BadType`; an integer whose exact value does not fit `I`'s range
    /// is rejected with `OutOfBound`; both anchored at the literal.
    pub fn next_integer<I: FromIntegerLiteral>(&mut self) -> (r: Result<
        Option<(I, Location)>,
        Error,
    >)
        ensures
            raw_transition(*old(self), *final(self)),
            integer_result_matches::<I>(old(self).remaining(), r),
    {
        match self.next_raw()? {
            Some((literal, span)) => Ok(
                Some((Self::try_integer_literal::<I>(literal, span)?, span)),
            ),
            None => Ok(None),
        }
    }

    /// Consume one raw argument without interpreting its literal kind;
    /// returns its location, or `None` at exhaustion.
    pub fn ignore_next(&mut self) -> (r: Result<Option<Location>, Error>)
        ensures
            raw_transition(*old(self), *final(self)),
            ignore_result_matches(old(self).remaining(), r),
    {
        match self.next_raw()? {
            Some((_, span)) => Ok(Some(span)),
            None => Ok(None),
        }
    }

    /// Count the arguments given to the call.
    ///
    /// This drains the whole remaining stream, skipping past grammar
    /// errors without counting them, and returns the total number of
    /// successfully decoded arguments. It is for diagnostics only: call
    /// it only once no further typed values are needed.
    pub fn count_arguments(&mut self) -> (r: usize)
        ensures
            count_transition(*old(self), *final(self), r),
    {
        let ghost pre = *self;
        loop
            invariant
                self.parsed_count() + drain_count(self.remaining()) == pre.parsed_count()
                    + drain_count(pre.remaining()),
            ensures
                self.parsed_count() + drain_count(self.remaining()) == pre.parsed_count()
                    + drain_count(pre.remaining()),
                self.remaining().len() == 0,
            decreases self.remaining().len(),
        {
            match self.next_raw() {
                Ok(Some(_)) => {},
                Ok(None) => {
                    break;
                },
                Err(_) => {},
            }
        }
        proof {
            use_type_invariant(&*self);
            assert(self.remaining() =~= Seq::<Token>::empty());
        }
        self.parsed
    }

    /// Extract the string payload of a literal, or report `BadType`
    /// naming the literal's actual kind, anchored at `span`.
    pub fn try_string_literal(lit: LiteralValue, span: Location) -> (r: Result<String, Error>)
        ensures
            match lit {
                LiteralValue::String(v) => r matches Ok(s) && s@ == v@,
                _ => r matches Err(e) && e.kind matches ErrorKind::BadType { given, expected }
                    && given == lit.kind_spec() && expected == LiteralType::String && e.span
                    == span,
            },
    {
        match lit {
            LiteralValue::String(v) => Ok(v),
            _ => Err(
                Error {
                    span,
                    kind: ErrorKind::BadType {
                        given: lit.kind(),
                        expected: LiteralType::String,
                    },
                },
            ),
        }
    }

    /// Convert an integer literal's exact value into the representation
    /// `I`, reporting `OutOfBound` when it does not fit, or `BadType`
    /// for a literal of any other kind; both anchored at `span`.
    pub fn try_integer_literal<I: FromIntegerLiteral>(lit: LiteralValue, span: Location) -> (r:
        Result<I, Error>)
        ensures
            match lit {
                LiteralValue::Integer(n) => match n {
                    Some(v) => if v <= I::max_spec() {
                        r matches Ok(x) && x.value_spec() == v
                    } else {
                        r matches Err(e) && e.kind is OutOfBound && e.span == span
                    },
                    None => r matches Err(e) && e.kind is OutOfBound && e.span == span,
                },
                _ => r matches Err(e) && e.kind matches ErrorKind::BadType { given, expected }
                    && given == lit.kind_spec() && expected == LiteralType::Integer && e.span
                    == span,
            },
    {
        match lit {
            LiteralValue::Integer(n) => {
                let converted = match n {
                    Some(v) => I::from_literal_value(v),
                    None => None,
                };
                match converted {
                    Some(value) => Ok(value),
                    None => Err(Error { span, kind: ErrorKind::OutOfBound }),
                }
            },
            _ => Err(
                Error {
                    span,
                    kind: ErrorKind::BadType {
                        given: lit.kind(),
                        expected: LiteralType::Integer,
                    },
                },
            ),
        }
    }
}

} // verus!
