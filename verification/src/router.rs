//! The dispatch router: the single entry point for every category of
//! failure surfaced during command dispatch.
//!
//! Each failure kind is resolved into exactly one [`Outcome`]: at most one
//! reply attempt and exactly one diagnostic record. The router never
//! fails; a failure while delivering the reply afterwards is absorbed by
//! [`delivery_followup`] and yields at most one more record.

use vstd::prelude::*;
use vstd::string::*;

use crate::argument::{argument_failure_message, spec_arg_message};
use crate::command::{classify_command_error, spec_classify_command};
use crate::report::{
    log_count, opt_text_view, reply_count, LogRecord, LogRecordView, Outcome, OutcomeView, Reply,
    ReplyView, Severity,
};
use crate::taxonomy::{ErrorKind, InvocationInfo, InvocationView};
use crate::text::{concat2, format_secs, human_duration_of, seq_contains_sub};

verus! {

/// A record with no reply: for failures with no addressable user context.
pub open spec fn log_only(log: LogRecordView) -> OutcomeView {
    OutcomeView { reply: None, log }
}

/// The outcome the router selects for one failure, given what is known of
/// the invocation it belongs to.
pub open spec fn spec_route(error: ErrorKind, ctx: InvocationView) -> OutcomeView {
    match error {
        ErrorKind::SetupFailure { description } => log_only(
            LogRecordView {
                severity: Severity::Error,
                message: "Error during setup"@,
                command: None,
                kind: "setup"@,
                detail: Some(description@),
            },
        ),
        ErrorKind::ListenerFailure { description } => log_only(
            LogRecordView {
                severity: Severity::Error,
                message: "Error in event listener"@,
                command: None,
                kind: "listener"@,
                detail: Some(description@),
            },
        ),
        ErrorKind::ArgumentParseFailure { failure, raw_input } => OutcomeView {
            reply: Some(
                ReplyView {
                    text: spec_arg_message(failure, opt_text_view(raw_input)),
                    ephemeral: false,
                },
            ),
            log: LogRecordView {
                severity: Severity::Info,
                message: "Invalid command arguments"@,
                command: Some(ctx.command),
                kind: "argument_parse"@,
                detail: opt_text_view(raw_input),
            },
        },
        ErrorKind::StructuralMismatch { description } => OutcomeView {
            reply: Some(ReplyView { text: "Something went wrong"@, ephemeral: false }),
            log: LogRecordView {
                severity: Severity::Error,
                message: "Error in command structure"@,
                command: Some(ctx.command),
                kind: "structural_mismatch"@,
                detail: Some(description@),
            },
        },
        ErrorKind::CooldownActive { remaining_secs } => OutcomeView {
            reply: Some(
                ReplyView {
                    text: "You're doing this too much. Try again in "@ + human_duration_of(
                        remaining_secs,
                    ),
                    ephemeral: false,
                },
            ),
            log: LogRecordView {
                severity: Severity::Info,
                message: "Command on cooldown"@,
                command: Some(ctx.command),
                kind: "cooldown"@,
                detail: Some(human_duration_of(remaining_secs)),
            },
        },
        ErrorKind::MissingBotCapability { capability } => OutcomeView {
            reply: Some(
                ReplyView {
                    text: "It seems like I am lacking the "@ + capability@ + " permission"@,
                    ephemeral: false,
                },
            ),
            log: LogRecordView {
                severity: Severity::Error,
                message: "Bot missing permissions"@,
                command: Some(ctx.command),
                kind: "missing_bot_capability"@,
                detail: Some(capability@),
            },
        },
        ErrorKind::MissingUserCapability { capability } => OutcomeView {
            reply: Some(ReplyView { text: "Missing permissions"@, ephemeral: false }),
            log: LogRecordView {
                severity: Severity::Error,
                message: "User missing permissions"@,
                command: Some(ctx.command),
                kind: "missing_user_capability"@,
                detail: Some(capability@),
            },
        },
        ErrorKind::NotOwner => OutcomeView {
            reply: Some(ReplyView { text: "You need to be an owner to do this"@, ephemeral: false }),
            log: LogRecordView {
                severity: Severity::Info,
                message: "Owner-only command denied"@,
                command: Some(ctx.command),
                kind: "not_owner"@,
                detail: None,
            },
        },
        ErrorKind::GuildOnlyViolation => OutcomeView {
            reply: Some(ReplyView { text: "This can only be ran in a server"@, ephemeral: false }),
            log: LogRecordView {
                severity: Severity::Info,
                message: "Guild-only command denied"@,
                command: Some(ctx.command),
                kind: "guild_only"@,
                detail: None,
            },
        },
        ErrorKind::DmOnlyViolation => OutcomeView {
            reply: Some(ReplyView { text: "This can only be used in DMs"@, ephemeral: false }),
            log: LogRecordView {
                severity: Severity::Info,
                message: "DM-only command denied"@,
                command: Some(ctx.command),
                kind: "dm_only"@,
                detail: None,
            },
        },
        ErrorKind::RestrictedContextViolation => OutcomeView {
            reply: Some(
                ReplyView { text: "This can only be used in NSFW channels"@, ephemeral: false },
            ),
            log: LogRecordView {
                severity: Severity::Info,
                message: "Restricted-context command denied"@,
                command: Some(ctx.command),
                kind: "restricted_context"@,
                detail: None,
            },
        },
        ErrorKind::CheckFailed { underlying } => match underlying {
            Some(detail) => OutcomeView {
                reply: Some(
                    ReplyView {
                        text: "Something went wrong while checking your permissions"@,
                        ephemeral: false,
                    },
                ),
                log: LogRecordView {
                    severity: Severity::Error,
                    message: "Error while running command check"@,
                    command: Some(ctx.command),
                    kind: "check_failed"@,
                    detail: Some(detail@),
                },
            },
            None => OutcomeView {
                reply: if ctx.interactive {
                    Some(ReplyView { text: "Insufficient permissions"@, ephemeral: true })
                } else {
                    None
                },
                log: LogRecordView {
                    severity: Severity::Info,
                    message: "Command check failed"@,
                    command: Some(ctx.command),
                    kind: "check_failed"@,
                    detail: None,
                },
            },
        },
        ErrorKind::CommandFailure { error } => spec_classify_command(error, ctx.command),
        ErrorKind::DynamicResolutionFailure { description } => log_only(
            LogRecordView {
                severity: Severity::Error,
                message: "Error in dynamic prefix"@,
                command: None,
                kind: "dynamic_resolution"@,
                detail: Some(description@),
            },
        ),
        ErrorKind::Unclassified { debug } => log_only(
            LogRecordView {
                severity: Severity::Error,
                message: "Unhandled framework error"@,
                command: None,
                kind: "unclassified"@,
                detail: Some(debug@),
            },
        ),
    }
}

/// Resolves one failure into its outcome. This is the single entry point
/// invoked once per failure occurrence; it is total and never fails.
pub fn route(error: ErrorKind, ctx: &InvocationInfo) -> (r: Outcome)
    ensures
        r@ == spec_route(error, ctx@),
{
    match error {
        ErrorKind::SetupFailure { description } => Outcome {
            reply: None,
            log: LogRecord {
                severity: Severity::Error,
                message: String::from_str("Error during setup"),
                command: None,
                kind: String::from_str("setup"),
                detail: Some(description),
            },
        },
        ErrorKind::ListenerFailure { description } => Outcome {
            reply: None,
            log: LogRecord {
                severity: Severity::Error,
                message: String::from_str("Error in event listener"),
                command: None,
                kind: String::from_str("listener"),
                detail: Some(description),
            },
        },
        ErrorKind::ArgumentParseFailure { failure, raw_input } => {
            let text = argument_failure_message(failure, &raw_input);
            Outcome {
                reply: Some(Reply { text, ephemeral: false }),
                log: LogRecord {
                    severity: Severity::Info,
                    message: String::from_str("Invalid command arguments"),
                    command: Some(ctx.command.clone()),
                    kind: String::from_str("argument_parse"),
                    detail: raw_input,
                },
            }
        },
        ErrorKind::StructuralMismatch { description } => Outcome {
            reply: Some(Reply { text: String::from_str("Something went wrong"), ephemeral: false }),
            log: LogRecord {
                severity: Severity::Error,
                message: String::from_str("Error in command structure"),
                command: Some(ctx.command.clone()),
                kind: String::from_str("structural_mismatch"),
                detail: Some(description),
            },
        },
        ErrorKind::CooldownActive { remaining_secs } => {
            let rendered = format_secs(remaining_secs);
            let text = concat2("You're doing this too much. Try again in ", rendered.as_str());
            Outcome {
                reply: Some(Reply { text, ephemeral: false }),
                log: LogRecord {
                    severity: Severity::Info,
                    message: String::from_str("Command on cooldown"),
                    command: Some(ctx.command.clone()),
                    kind: String::from_str("cooldown"),
                    detail: Some(rendered),
                },
            }
        },
        ErrorKind::MissingBotCapability { capability } => {
            let text = crate::text::concat3(
                "It seems like I am lacking the ",
                capability.as_str(),
                " permission",
            );
            Outcome {
                reply: Some(Reply { text, ephemeral: false }),
                log: LogRecord {
                    severity: Severity::Error,
                    message: String::from_str("Bot missing permissions"),
                    command: Some(ctx.command.clone()),
                    kind: String::from_str("missing_bot_capability"),
                    detail: Some(capability),
                },
            }
        },
        ErrorKind::MissingUserCapability { capability } => Outcome {
            reply: Some(Reply { text: String::from_str("Missing permissions"), ephemeral: false }),
            log: LogRecord {
                severity: Severity::Error,
                message: String::from_str("User missing permissions"),
                command: Some(ctx.command.clone()),
                kind: String::from_str("missing_user_capability"),
                detail: Some(capability),
            },
        },
        ErrorKind::NotOwner => Outcome {
            reply: Some(
                Reply {
                    text: String::from_str("You need to be an owner to do this"),
                    ephemeral: false,
                },
            ),
            log: LogRecord {
                severity: Severity::Info,
                message: String::from_str("Owner-only command denied"),
                command: Some(ctx.command.clone()),
                kind: String::from_str("not_owner"),
                detail: None,
            },
        },
        ErrorKind::GuildOnlyViolation => Outcome {
            reply: Some(
                Reply { text: String::from_str("This can only be ran in a server"), ephemeral: false },
            ),
            log: LogRecord {
                severity: Severity::Info,
                message: String::from_str("Guild-only command denied"),
                command: Some(ctx.command.clone()),
                kind: String::from_str("guild_only"),
                detail: None,
            },
        },
        ErrorKind::DmOnlyViolation => Outcome {
            reply: Some(
                Reply { text: String::from_str("This can only be used in DMs"), ephemeral: false },
            ),
            log: LogRecord {
                severity: Severity::Info,
                message: String::from_str("DM-only command denied"),
                command: Some(ctx.command.clone()),
                kind: String::from_str("dm_only"),
                detail: None,
            },
        },
        ErrorKind::RestrictedContextViolation => Outcome {
            reply: Some(
                Reply {
                    text: String::from_str("This can only be used in NSFW channels"),
                    ephemeral: false,
                },
            ),
            log: LogRecord {
                severity: Severity::Info,
                message: String::from_str("Restricted-context command denied"),
                command: Some(ctx.command.clone()),
                kind: String::from_str("restricted_context"),
                detail: None,
            },
        },
        ErrorKind::CheckFailed { underlying } => match underlying {
            Some(detail) => Outcome {
                reply: Some(
                    Reply {
                        text: String::from_str(
                            "Something went wrong while checking your permissions",
                        ),
                        ephemeral: false,
                    },
                ),
                log: LogRecord {
                    severity: Severity::Error,
                    message: String::from_str("Error while running command check"),
                    command: Some(ctx.command.clone()),
                    kind: String::from_str("check_failed"),
                    detail: Some(detail),
                },
            },
            None => {
                let reply = if ctx.interactive {
                    Some(Reply { text: String::from_str("Insufficient permissions"), ephemeral: true })
                } else {
                    None
                };
                Outcome {
                    reply,
                    log: LogRecord {
                        severity: Severity::Info,
                        message: String::from_str("Command check failed"),
                        command: Some(ctx.command.clone()),
                        kind: String::from_str("check_failed"),
                        detail: None,
                    },
                }
            },
        },
        ErrorKind::CommandFailure { error } => classify_command_error(error, ctx.command.as_str()),
        ErrorKind::DynamicResolutionFailure { description } => Outcome {
            reply: None,
            log: LogRecord {
                severity: Severity::Error,
                message: String::from_str("Error in dynamic prefix"),
                command: None,
                kind: String::from_str("dynamic_resolution"),
                detail: Some(description),
            },
        },
        ErrorKind::Unclassified { debug } => Outcome {
            reply: None,
            log: LogRecord {
                severity: Severity::Error,
                message: String::from_str("Unhandled framework error"),
                command: None,
                kind: String::from_str("unclassified"),
                detail: Some(debug),
            },
        },
    }
}

/// The record that absorbing a reply-delivery failure produces: nothing
/// for a delivered reply, one error-severity record otherwise.
pub open spec fn spec_delivery_followup(failure: Option<Seq<char>>) -> Option<LogRecordView> {
    match failure {
        None => None,
        Some(detail) => Some(
            LogRecordView {
                severity: Severity::Error,
                message: "Failed to deliver error reply"@,
                command: None,
                kind: "reply_delivery"@,
                detail: Some(detail),
            },
        ),
    }
}

/// The view of an optional diagnostic record.
pub open spec fn opt_log_view(o: Option<LogRecord>) -> Option<LogRecordView> {
    match o {
        Some(r) => Some(r@),
        None => None,
    }
}

/// Absorbs the result of attempting to deliver a reply.
///
/// `failure` is the delivery error's display text, or `None` when the
/// reply was delivered. The failure is terminal here: it is turned into
/// at most one diagnostic record, never retried and never re-raised.
pub fn delivery_followup(failure: Option<String>) -> (r: Option<LogRecord>)
    ensures
        opt_log_view(r) == spec_delivery_followup(opt_text_view(failure)),
{
    match failure {
        None => None,
        Some(detail) => Some(
            LogRecord {
                severity: Severity::Error,
                message: String::from_str("Failed to deliver error reply"),
                command: None,
                kind: String::from_str("reply_delivery"),
                detail: Some(detail),
            },
        ),
    }
}

/// Every failure kind is resolved into at most one reply attempt and
/// exactly one diagnostic record, whatever the invocation looked like.
pub proof fn lemma_route_action_counts(error: ErrorKind, ctx: InvocationView)
    ensures
        reply_count(spec_route(error, ctx)) <= 1,
        log_count(spec_route(error, ctx)) == 1,
{
}

/// A reply-delivery failure is absorbed, never escalated: the follow-up
/// holds a diagnostic record exactly when delivery failed, and nothing is
/// ever sent to the user a second time.
pub proof fn lemma_delivery_failure_terminal(failure: Option<Seq<char>>)
    ensures
        spec_delivery_followup(failure) is Some <==> failure is Some,
        failure is Some ==> spec_delivery_followup(failure)->Some_0.severity == Severity::Error,
{
}

/// The reply for a missing user capability is the same whatever the
/// capability is: the bot withholds the capability's name from the user,
/// while the diagnostic record carries it in full.
pub proof fn lemma_user_capability_reply_constant(
    cap1: String,
    cap2: String,
    ctx: InvocationView,
)
    ensures
        spec_route(ErrorKind::MissingUserCapability { capability: cap1 }, ctx).reply == spec_route(
            ErrorKind::MissingUserCapability { capability: cap2 },
            ctx,
        ).reply,
        spec_route(ErrorKind::MissingUserCapability { capability: cap1 }, ctx).log.detail == Some(
            cap1@,
        ),
{
}

/// The reply for a missing user capability never contains the capability
/// name, while the diagnostic record does carry it. The one family of
/// inputs left out is a capability whose name happens to occur inside the
/// fixed reply text itself.
pub proof fn lemma_user_capability_withheld(capability: String, ctx: InvocationView)
    requires
        !seq_contains_sub("Missing permissions"@, capability@),
    ensures
        ({
            let o = spec_route(ErrorKind::MissingUserCapability { capability }, ctx);
            &&& o.reply == Some(ReplyView { text: "Missing permissions"@, ephemeral: false })
            &&& !seq_contains_sub(o.reply->Some_0.text, capability@)
            &&& o.log.detail == Some(capability@)
        }),
{
}

} // verus!
