//! The command error classifier: inspects the error a command handler's
//! execution produced and selects the reply and the diagnostic record.
//!
//! The decision procedure is fixed and total: a handler's explicit domain
//! error takes absolute precedence; then the client library's own error is
//! inspected; everything else is an internal failure whose text is never
//! shown to the user. The single approved exception to that no-leak rule
//! is the client's data-model validation message, surfaced verbatim.

use vstd::prelude::*;
use vstd::string::*;

use crate::report::{LogRecord, Outcome, OutcomeView, LogRecordView, Reply, ReplyView, Severity};
use crate::taxonomy::{ClientError, CommandError, DomainError};
use crate::text::{concat2, lower_of, lowercase, seq_contains_sub, str_contains_sub};

verus! {

/// A transport failure is reported as an unknown user exactly when its
/// status is the "not found" code and the server's message contains
/// "unknown user" after case folding.
pub open spec fn spec_transport_unknown_user(status: u16, message: Seq<char>) -> bool {
    status == 404 && seq_contains_sub(lower_of(message), "unknown user"@)
}

/// The outcome the classifier selects for a handler's error, given the
/// qualified name of the command that failed.
pub open spec fn spec_classify_command(err: CommandError, cmd: Seq<char>) -> OutcomeView {
    match err {
        CommandError::Domain(DomainError::ReferenceNotFound) => OutcomeView {
            reply: Some(ReplyView { text: "No user found with that name"@, ephemeral: false }),
            log: LogRecordView {
                severity: Severity::Info,
                message: "User error"@,
                command: Some(cmd),
                kind: "command_domain"@,
                detail: None,
            },
        },
        CommandError::Domain(DomainError::Reported { message }) => OutcomeView {
            reply: Some(ReplyView { text: "Error: "@ + message@, ephemeral: false }),
            log: LogRecordView {
                severity: Severity::Info,
                message: "User error"@,
                command: Some(cmd),
                kind: "command_domain"@,
                detail: Some(message@),
            },
        },
        CommandError::Client(ClientError::Transport { status, message }) => OutcomeView {
            reply: Some(
                ReplyView {
                    text: if spec_transport_unknown_user(status, message@) {
                        "User not found"@
                    } else {
                        "Something went wrong"@
                    },
                    ephemeral: false,
                },
            ),
            log: LogRecordView {
                severity: Severity::Warn,
                message: "Client library error"@,
                command: Some(cmd),
                kind: "command_client"@,
                detail: Some(message@),
            },
        },
        CommandError::Client(ClientError::ModelValidation { message }) => OutcomeView {
            reply: Some(ReplyView { text: message@, ephemeral: false }),
            log: LogRecordView {
                severity: Severity::Warn,
                message: "Client library error"@,
                command: Some(cmd),
                kind: "command_client"@,
                detail: Some(message@),
            },
        },
        CommandError::Client(ClientError::Other { display }) => OutcomeView {
            reply: Some(ReplyView { text: "Something went wrong"@, ephemeral: false }),
            log: LogRecordView {
                severity: Severity::Warn,
                message: "Client library error"@,
                command: Some(cmd),
                kind: "command_client"@,
                detail: Some(display@),
            },
        },
        CommandError::Internal { display, debug } => OutcomeView {
            reply: Some(ReplyView { text: "Something went wrong"@, ephemeral: false }),
            log: LogRecordView {
                severity: Severity::Warn,
                message: display@,
                command: Some(cmd),
                kind: "command_internal"@,
                detail: Some(debug@),
            },
        },
    }
}

/// Whether a transport failure's server message indicates an unknown user.
pub fn transport_indicates_unknown_user(message: &str) -> (r: bool)
    ensures
        r == seq_contains_sub(lower_of(message@), "unknown user"@),
{
    let lowered = lowercase(message);
    str_contains_sub(lowered.as_str(), "unknown user")
}

/// A reference-not-found domain error always renders
/// "No user found with that name" and is recorded at info severity,
/// never warn or error, whatever command it came from.
pub proof fn lemma_reference_not_found(cmd: Seq<char>)
    ensures
        ({
            let o = spec_classify_command(CommandError::Domain(DomainError::ReferenceNotFound), cmd);
            &&& o.reply == Some(
                ReplyView { text: "No user found with that name"@, ephemeral: false },
            )
            &&& o.log.severity == Severity::Info
        }),
{
}

/// A transport failure whose status is "not found" and whose server
/// message contains "unknown user" after case folding renders
/// "User not found"; every other transport failure renders the generic
/// acknowledgment. Both are recorded at warn severity.
pub proof fn lemma_transport_rendering(status: u16, message: String, cmd: Seq<char>)
    ensures
        ({
            let o = spec_classify_command(
                CommandError::Client(ClientError::Transport { status, message }),
                cmd,
            );
            &&& spec_transport_unknown_user(status, message@) ==> o.reply == Some(
                ReplyView { text: "User not found"@, ephemeral: false },
            )
            &&& !spec_transport_unknown_user(status, message@) ==> o.reply == Some(
                ReplyView { text: "Something went wrong"@, ephemeral: false },
            )
            &&& o.log.severity == Severity::Warn
        }),
{
}

/// A data-model validation failure is the one approved exception to the
/// no-leak rule: its message is rendered verbatim.
pub proof fn lemma_model_validation_verbatim(message: String, cmd: Seq<char>)
    ensures
        spec_classify_command(
            CommandError::Client(ClientError::ModelValidation { message }),
            cmd,
        ).reply == Some(ReplyView { text: message@, ephemeral: false }),
{
}

/// Two command errors are equivalent when they carry the same variant and
/// textually equal payloads.
pub open spec fn command_error_equiv(e1: CommandError, e2: CommandError) -> bool {
    match (e1, e2) {
        (
            CommandError::Domain(DomainError::ReferenceNotFound),
            CommandError::Domain(DomainError::ReferenceNotFound),
        ) => true,
        (
            CommandError::Domain(DomainError::Reported { message: m1 }),
            CommandError::Domain(DomainError::Reported { message: m2 }),
        ) => m1@ == m2@,
        (
            CommandError::Client(ClientError::Transport { status: s1, message: m1 }),
            CommandError::Client(ClientError::Transport { status: s2, message: m2 }),
        ) => s1 == s2 && m1@ == m2@,
        (
            CommandError::Client(ClientError::ModelValidation { message: m1 }),
            CommandError::Client(ClientError::ModelValidation { message: m2 }),
        ) => m1@ == m2@,
        (
            CommandError::Client(ClientError::Other { display: d1 }),
            CommandError::Client(ClientError::Other { display: d2 }),
        ) => d1@ == d2@,
        (
            CommandError::Internal { display: d1, debug: g1 },
            CommandError::Internal { display: d2, debug: g2 },
        ) => d1@ == d2@ && g1@ == g2@,
        _ => false,
    }
}

/// The classifier is a pure function of the error value: classifying two
/// equivalent errors yields equivalent outcomes, with no hidden state.
pub proof fn lemma_classifier_deterministic(e1: CommandError, e2: CommandError, cmd: Seq<char>)
    requires
        command_error_equiv(e1, e2),
    ensures
        spec_classify_command(e1, cmd) == spec_classify_command(e2, cmd),
{
}

/// Classifies the error a command handler's execution produced.
///
/// `command` is the qualified name of the command that failed; it is
/// recorded in the diagnostic record of every branch.
pub fn classify_command_error(err: CommandError, command: &str) -> (r: Outcome)
    ensures
        r@ == spec_classify_command(err, command@),
{
    match err {
        CommandError::Domain(DomainError::ReferenceNotFound) => Outcome {
            reply: Some(
                Reply { text: String::from_str("No user found with that name"), ephemeral: false },
            ),
            log: LogRecord {
                severity: Severity::Info,
                message: String::from_str("User error"),
                command: Some(String::from_str(command)),
                kind: String::from_str("command_domain"),
                detail: None,
            },
        },
        CommandError::Domain(DomainError::Reported { message }) => {
            let text = concat2("Error: ", message.as_str());
            Outcome {
                reply: Some(Reply { text, ephemeral: false }),
                log: LogRecord {
                    severity: Severity::Info,
                    message: String::from_str("User error"),
                    command: Some(String::from_str(command)),
                    kind: String::from_str("command_domain"),
                    detail: Some(message),
                },
            }
        },
        CommandError::Client(ClientError::Transport { status, message }) => {
            let unknown_user = status == 404 && transport_indicates_unknown_user(message.as_str());
            let text = if unknown_user {
                String::from_str("User not found")
            } else {
                String::from_str("Something went wrong")
            };
            Outcome {
                reply: Some(Reply { text, ephemeral: false }),
                log: LogRecord {
                    severity: Severity::Warn,
                    message: String::from_str("Client library error"),
                    command: Some(String::from_str(command)),
                    kind: String::from_str("command_client"),
                    detail: Some(message),
                },
            }
        },
        CommandError::Client(ClientError::ModelValidation { message }) => Outcome {
            reply: Some(Reply { text: message.clone(), ephemeral: false }),
            log: LogRecord {
                severity: Severity::Warn,
                message: String::from_str("Client library error"),
                command: Some(String::from_str(command)),
                kind: String::from_str("command_client"),
                detail: Some(message),
            },
        },
        CommandError::Client(ClientError::Other { display }) => Outcome {
            reply: Some(Reply { text: String::from_str("Something went wrong"), ephemeral: false }),
            log: LogRecord {
                severity: Severity::Warn,
                message: String::from_str("Client library error"),
                command: Some(String::from_str(command)),
                kind: String::from_str("command_client"),
                detail: Some(display),
            },
        },
        CommandError::Internal { display, debug } => Outcome {
            reply: Some(Reply { text: String::from_str("Something went wrong"), ephemeral: false }),
            log: LogRecord {
                severity: Severity::Warn,
                message: display,
                command: Some(String::from_str(command)),
                kind: String::from_str("command_internal"),
                detail: Some(debug),
            },
        },
    }
}

} // verus!
