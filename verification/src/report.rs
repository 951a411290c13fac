//! The two artifacts the error pipeline produces for every failure: a
//! best-effort user-facing reply and a structured diagnostic record.

use vstd::prelude::*;

verus! {

/// Severity of a diagnostic record emitted by the error pipeline.
#[derive(Clone, Copy, Debug, PartialEq, Eq, Structural)]
pub enum Severity {
    Info,
    Warn,
    Error,
}

/// A user-facing message, delivered to the invoking context.
///
/// `ephemeral` marks the private, author-only acknowledgment used for
/// interactive invocations; an ordinary reply is visible in the channel.
pub struct Reply {
    pub text: String,
    pub ephemeral: bool,
}

/// Mathematical model of a [`Reply`].
#[verifier::ext_equal]
pub ghost struct ReplyView {
    pub text: Seq<char>,
    pub ephemeral: bool,
}

impl View for Reply {
    type V = ReplyView;

    open spec fn view(&self) -> ReplyView {
        ReplyView { text: self.text@, ephemeral: self.ephemeral }
    }
}

/// One structured diagnostic record: severity, a human-readable message,
/// the command name when one is available, a tag naming the failure kind,
/// and kind-specific detail (a capability name, raw input, an underlying
/// error's text).
pub struct LogRecord {
    pub severity: Severity,
    pub message: String,
    pub command: Option<String>,
    pub kind: String,
    pub detail: Option<String>,
}

/// Mathematical model of a [`LogRecord`].
#[verifier::ext_equal]
pub ghost struct LogRecordView {
    pub severity: Severity,
    pub message: Seq<char>,
    pub command: Option<Seq<char>>,
    pub kind: Seq<char>,
    pub detail: Option<Seq<char>>,
}

/// The view of an optional owned string.
pub open spec fn opt_text_view(o: Option<String>) -> Option<Seq<char>> {
    match o {
        Some(s) => Some(s@),
        None => None,
    }
}

impl View for LogRecord {
    type V = LogRecordView;

    open spec fn view(&self) -> LogRecordView {
        LogRecordView {
            severity: self.severity,
            message: self.message@,
            command: opt_text_view(self.command),
            kind: self.kind@,
            detail: opt_text_view(self.detail),
        }
    }
}

/// The resolution of one failure: at most one reply attempt and exactly one
/// diagnostic record. Every failure entering the pipeline is terminal here;
/// nothing is ever re-raised.
pub struct Outcome {
    pub reply: Option<Reply>,
    pub log: LogRecord,
}

/// Mathematical model of an [`Outcome`].
#[verifier::ext_equal]
pub ghost struct OutcomeView {
    pub reply: Option<ReplyView>,
    pub log: LogRecordView,
}

/// The view of an optional reply.
pub open spec fn opt_reply_view(o: Option<Reply>) -> Option<ReplyView> {
    match o {
        Some(r) => Some(r@),
        None => None,
    }
}

impl View for Outcome {
    type V = OutcomeView;

    open spec fn view(&self) -> OutcomeView {
        OutcomeView { reply: opt_reply_view(self.reply), log: self.log@ }
    }
}

/// How many reply attempts an outcome makes: zero or one by construction.
pub open spec fn reply_count(o: OutcomeView) -> nat {
    match o.reply {
        Some(_) => 1,
        None => 0,
    }
}

/// How many diagnostic records an outcome emits: exactly one by construction.
pub open spec fn log_count(o: OutcomeView) -> nat {
    1
}

} // verus!
