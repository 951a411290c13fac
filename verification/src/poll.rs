//! Poll planning: deciding, from the raw text of a poll command, whether
//! a yes/no or a multiple-choice poll was requested, and what the posted
//! poll will contain.

use vstd::prelude::*;
use vstd::string::*;

use crate::taxonomy::DomainError;
use crate::text::{concat2, str_matches_at, strip_list_marker, list_marker_stripped};

verus! {

/// The most options a multiple-choice poll can offer: one per selection
/// emoji the bot reacts with.
pub const MAX_POLL_OPTIONS: usize = 20;

/// The longest question a yes/no poll accepts, in characters.
pub const MAX_POLL_QUESTION_CHARS: usize = 255;

/// What gets posted for a poll request: the embed title, and for a
/// multiple-choice poll the cleaned-up option lines in order.
pub enum PollPlan {
    YesNo { title: String },
    Multi { title: String, options: Vec<String> },
}

/// The remainder of `s` after `prefix`, when `s` starts with it.
pub open spec fn spec_strip_prefix(s: Seq<char>, prefix: Seq<char>) -> Option<Seq<char>> {
    if prefix.len() <= s.len() && s.subrange(0, prefix.len() as int) == prefix {
        Some(s.subrange(prefix.len() as int, s.len() as int))
    } else {
        None
    }
}

/// The remainder of `s` after `prefix`, when `s` starts with it.
pub fn strip_prefix_text(s: &str, prefix: &str) -> (r: Option<String>)
    ensures
        crate::report::opt_text_view(r) == spec_strip_prefix(s@, prefix@),
{
    let sl = s.unicode_len();
    let pl = prefix.unicode_len();
    if pl <= sl && str_matches_at(s, prefix, 0) {
        let rest = s.substring_char(pl, sl);
        Some(String::from_str(rest))
    } else {
        None
    }
}

/// A poll request is a multiple-choice request exactly when its first
/// space-delimited word is "multi": the text is "multi" itself or starts
/// with "multi ".
pub open spec fn spec_poll_is_multi(s: Seq<char>) -> bool {
    s == "multi"@ || spec_strip_prefix(s, "multi "@) is Some
}

/// Whether the poll request asks for a multiple-choice poll.
pub fn poll_is_multi(args: &str) -> (r: bool)
    ensures
        r == spec_poll_is_multi(args@),
{
    if crate::text::str_eq(args, "multi") {
        return true;
    }
    match strip_prefix_text(args, "multi ") {
        Some(_) => true,
        None => false,
    }
}

/// The embed title of a multiple-choice poll: the text of its first line
/// after the "multi " keyword, when one was given.
pub open spec fn spec_multi_title(first_line: Seq<char>) -> Seq<char> {
    match spec_strip_prefix(first_line, "multi "@) {
        Some(t) => "Poll: "@ + t,
        None => "Poll"@,
    }
}

/// Plans a multiple-choice poll from the request's lines. The first line
/// holds the keyword and optional title; every further line is one
/// option, cleaned of a leading list marker. Anything but two to twenty
/// options is rejected with the message the user sees.
pub fn multi_poll_plan(lines: Vec<String>) -> (r: Result<PollPlan, DomainError>)
    ensures
        r is Ok <==> 3 <= lines@.len() <= MAX_POLL_OPTIONS + 1,
        r matches Ok(p) ==> (p matches PollPlan::Multi { title, options } && title@
            == spec_multi_title(lines@[0]@) && options@.len() == lines@.len() - 1 && forall|i: int|
            0 <= i < options@.len() ==> (#[trigger] options@[i]@) == list_marker_stripped(
            lines@[i + 1]@,
        )),
        r matches Err(e) ==> (e matches DomainError::Reported { message } && message@
            == "There must be between 2 and 20 options"@),
{
    if lines.len() < 3 || lines.len() > MAX_POLL_OPTIONS + 1 {
        return Err(
            DomainError::Reported {
                message: String::from_str("There must be between 2 and 20 options"),
            },
        );
    }
    let title = match strip_prefix_text(lines[0].as_str(), "multi ") {
        Some(t) => concat2("Poll: ", t.as_str()),
        None => String::from_str("Poll"),
    };
    let mut options: Vec<String> = Vec::new();
    let mut i: usize = 1;
    while i < lines.len()
        invariant
            1 <= i <= lines@.len(),
            options@.len() == i - 1,
            forall|k: int|
                0 <= k < options@.len() ==> (#[trigger] options@[k]@) == list_marker_stripped(
                    lines@[k + 1]@,
                ),
        decreases lines@.len() - i,
    {
        let cleaned = strip_list_marker(lines[i].as_str());
        options.push(cleaned);
        i += 1;
    }
    Ok(PollPlan::Multi { title, options })
}

/// Plans a yes/no poll from the request's full text, which is the
/// question. An empty request is turned down with the usage line, an
/// overlong question with the message the user sees.
pub fn yes_no_poll_plan(question: &str) -> (r: Result<PollPlan, DomainError>)
    ensures
        r is Ok <==> 0 < question@.len() <= MAX_POLL_QUESTION_CHARS,
        r matches Ok(p) ==> (p matches PollPlan::YesNo { title } && title@ == "Poll: "@
            + question@),
        r matches Err(e) ==> (e matches DomainError::Reported { message } && message@ == (
        if question@.len() == 0 {
            "Usage: poll <question> OR poll multi [title] <one option per line>"@
        } else {
            "The question is too long :("@
        })),
{
    if question.is_empty() {
        return Err(
            DomainError::Reported {
                message: String::from_str(
                    "Usage: poll <question> OR poll multi [title] <one option per line>",
                ),
            },
        );
    }
    if question.unicode_len() > MAX_POLL_QUESTION_CHARS {
        return Err(
            DomainError::Reported { message: String::from_str("The question is too long :(") },
        );
    }
    Ok(PollPlan::YesNo { title: concat2("Poll: ", question) })
}

/// Plans a poll request: the full text decides between a multiple-choice
/// and a yes/no poll, and the split lines feed the multiple-choice plan.
///
/// `lines` must be the lines of `args`; the planner only reads them on
/// the multiple-choice path.
pub fn plan_poll(args: &str, lines: Vec<String>) -> (r: Result<PollPlan, DomainError>)
    ensures
        spec_poll_is_multi(args@) ==> (r is Ok <==> 3 <= lines@.len() <= MAX_POLL_OPTIONS + 1),
        !spec_poll_is_multi(args@) ==> (r is Ok <==> 0 < args@.len() <= MAX_POLL_QUESTION_CHARS),
        r matches Ok(p) ==> (if spec_poll_is_multi(args@) {
            p matches PollPlan::Multi { title, options } && title@ == spec_multi_title(lines@[0]@)
                && options@.len() == lines@.len() - 1 && forall|i: int|
                0 <= i < options@.len() ==> (#[trigger] options@[i]@) == list_marker_stripped(
                    lines@[i + 1]@,
                )
        } else {
            p matches PollPlan::YesNo { title } && title@ == "Poll: "@ + args@
        }),
{
    if poll_is_multi(args) {
        multi_poll_plan(lines)
    } else {
        yes_no_poll_plan(args)
    }
}

} // verus!
