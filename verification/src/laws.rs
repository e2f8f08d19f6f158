//! The decoder's general laws, stated over the raw-step model and
//! proved once and for all.

use vstd::prelude::*;

use crate::arg_parser::{count_transition, drain_count, raw_step, ArgParser, RawStep};
use crate::token::{is_comma_token, is_literal_token, Token};

verus! {

/// A well-formed argument list: `literal (, literal)*`, possibly empty,
/// with no trailing comma.
pub open spec fn well_formed_args(s: Seq<Token>) -> bool
    decreases s.len(),
{
    s.len() == 0 || (is_literal_token(s[0]) && (s.len() == 1 || (is_comma_token(s[1]) && s.len()
        > 2 && well_formed_args(s.skip(2)))))
}

/// How many arguments a well-formed list holds: one per literal token.
pub open spec fn well_formed_count(s: Seq<Token>) -> nat
    decreases s.len(),
{
    if s.len() == 0 {
        0
    } else if s.len() == 1 {
        1
    } else {
        1 + well_formed_count(s.skip(2))
    }
}

/// Law: on a non-empty well-formed list every raw step succeeds, and
/// what it leaves behind is again well-formed, with one argument fewer.
pub proof fn lemma_well_formed_step(s: Seq<Token>)
    requires
        well_formed_args(s),
        s.len() > 0,
    ensures
        raw_step(s) matches RawStep::Value { consumed, .. } && well_formed_args(s.skip(consumed))
            && well_formed_count(s) == 1 + well_formed_count(s.skip(consumed)),
{
    if s.len() == 1 {
        assert(s.skip(1) =~= Seq::<Token>::empty());
    }
}

/// Law: a well-formed `literal (, literal)*` list of `n` arguments
/// decodes in exactly `n` successful raw steps before exhaustion, so a
/// full drain counts exactly `n`.
pub proof fn lemma_well_formed_drain_count(s: Seq<Token>)
    requires
        well_formed_args(s),
    ensures
        drain_count(s) == well_formed_count(s),
    decreases s.len(),
{
    if s.len() > 0 {
        lemma_well_formed_step(s);
        match raw_step(s) {
            RawStep::Value { consumed, .. } => {
                lemma_well_formed_drain_count(s.skip(consumed));
            },
            _ => {},
        }
    }
}

/// Law: two literal tokens not separated by a comma fail with an
/// `UnexpectedToken` carrying the second literal's text, anchored at
/// the second literal's location — not at the first's.
pub proof fn lemma_adjacent_literals_fail(s: Seq<Token>)
    requires
        s.len() >= 2,
        is_literal_token(s[0]),
        is_literal_token(s[1]),
    ensures
        raw_step(s) matches RawStep::Fail { text, loc, consumed } && text == s[1].text@ && loc
            == s[1].loc && consumed == 2,
{
}

/// Law: counting the remaining arguments is idempotent — when no
/// decoding happens in between, a second `count_arguments` call
/// returns the same count as the first.
pub proof fn lemma_count_arguments_idempotent(
    p0: ArgParser,
    p1: ArgParser,
    r1: usize,
    p2: ArgParser,
    r2: usize,
)
    requires
        count_transition(p0, p1, r1),
        count_transition(p1, p2, r2),
    ensures
        r2 == r1,
{
}

} // verus!
