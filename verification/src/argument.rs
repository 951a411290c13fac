//! The argument classifier: maps one argument-coercion failure plus the
//! raw text the user supplied to a user-facing message.
//!
//! Classification is total: every failure kind yields exactly one message.
//! The kinds are mutually exclusive tags, so the priority order of the
//! checks is fixed by construction: a too-many-arguments failure renders
//! its own message whatever raw text accompanies it.

use vstd::prelude::*;
use vstd::string::*;

use crate::taxonomy::ArgParseKind;
use crate::text::concat3;

verus! {

/// The raw input's characters, or the empty sequence when none was supplied.
pub open spec fn raw_or_empty(raw: Option<Seq<char>>) -> Seq<char> {
    match raw {
        Some(s) => s,
        None => Seq::empty(),
    }
}

/// The message the argument classifier renders for `failure` with raw
/// input `raw`.
pub open spec fn spec_arg_message(failure: ArgParseKind, raw: Option<Seq<char>>) -> Seq<char> {
    match failure {
        ArgParseKind::InvalidDuration => "'"@ + raw_or_empty(raw) + "' is not a valid duration"@,
        ArgParseKind::UnknownUser => "I couldn't find any user '"@ + raw_or_empty(raw) + "'"@,
        ArgParseKind::UnknownMember => "I couldn't find any member '"@ + raw_or_empty(raw) + "'"@,
        ArgParseKind::TooManyArguments => "Too many arguments"@,
        ArgParseKind::TooFewArguments => "Too few arguments"@,
        ArgParseKind::Other => match raw {
            Some(s) => "Malformed argument '"@ + s + "'"@,
            None => "Command used incorrectly"@,
        },
    }
}

/// The count mismatch messages ignore the raw text entirely: a
/// too-many-arguments or too-few-arguments failure renders its fixed
/// message whatever raw input accompanies it.
pub proof fn lemma_count_mismatch_ignores_raw(raw1: Option<Seq<char>>, raw2: Option<Seq<char>>)
    ensures
        spec_arg_message(ArgParseKind::TooManyArguments, raw1) == spec_arg_message(
            ArgParseKind::TooManyArguments,
            raw2,
        ),
        spec_arg_message(ArgParseKind::TooFewArguments, raw1) == spec_arg_message(
            ArgParseKind::TooFewArguments,
            raw2,
        ),
{
}

/// Renders the user-facing message for one argument-coercion failure.
pub fn argument_failure_message(failure: ArgParseKind, raw: &Option<String>) -> (r: String)
    ensures
        r@ == spec_arg_message(failure, crate::report::opt_text_view(*raw)),
{
    let raw_text: &str = match raw {
        Some(s) => s.as_str(),
        None => "",
    };
    proof {
        reveal_strlit("");
        assert(""@ =~= Seq::<char>::empty());
        assert(raw_text@ == raw_or_empty(crate::report::opt_text_view(*raw)));
    }
    match failure {
        ArgParseKind::InvalidDuration => concat3("'", raw_text, "' is not a valid duration"),
        ArgParseKind::UnknownUser => concat3("I couldn't find any user '", raw_text, "'"),
        ArgParseKind::UnknownMember => concat3("I couldn't find any member '", raw_text, "'"),
        ArgParseKind::TooManyArguments => String::from_str("Too many arguments"),
        ArgParseKind::TooFewArguments => String::from_str("Too few arguments"),
        ArgParseKind::Other => match raw {
            Some(s) => concat3("Malformed argument '", s.as_str(), "'"),
            None => String::from_str("Command used incorrectly"),
        },
    }
}

} // verus!
