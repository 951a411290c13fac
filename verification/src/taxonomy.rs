//! The closed taxonomy of failures the pipeline classifies.
//!
//! Framework dispatch hands the router exactly one of these per failure.
//! The set is closed and matched exhaustively: a new framework failure
//! category is a build-time error here, never a silent runtime fallback.

use vstd::prelude::*;

verus! {

/// The coercion failure raised while parsing one command argument.
#[derive(Clone, Copy, Debug, PartialEq, Eq, Structural)]
pub enum ArgParseKind {
    /// The raw text could not be read as a duration.
    InvalidDuration,
    /// A user reference could not be resolved.
    UnknownUser,
    /// A guild-scoped member reference could not be resolved.
    UnknownMember,
    /// More positional arguments were supplied than the command declares.
    TooManyArguments,
    /// Fewer positional arguments were supplied than the command declares.
    TooFewArguments,
    /// Any other coercion failure.
    Other,
}

/// An error a command handler raises on purpose to signal an expected,
/// user-facing condition.
pub enum DomainError {
    /// A named entity, such as a user, could not be resolved.
    ReferenceNotFound,
    /// An arbitrary user-facing message chosen by the handler.
    Reported { message: String },
}

/// The chat-platform client's own error, reduced to the cases the
/// classifier distinguishes.
pub enum ClientError {
    /// A transport/HTTP failure with a status code and the server's message.
    Transport { status: u16, message: String },
    /// A data-model validation failure with a human-readable message.
    ModelValidation { message: String },
    /// Any other client-library failure, carrying its display text.
    Other { display: String },
}

/// The error value produced by a command handler's execution.
pub enum CommandError {
    /// The handler raised a typed, intentional failure.
    Domain(DomainError),
    /// The chat-platform client failed.
    Client(ClientError),
    /// A truly unclassified internal failure, carrying its display and
    /// debug text. Neither is ever shown to the user.
    Internal { display: String, debug: String },
}

/// Every category of failure the framework can surface during dispatch.
pub enum ErrorKind {
    /// Failure while setting the bot up; no user context exists.
    SetupFailure { description: String },
    /// Failure inside an event listener; no user context exists.
    ListenerFailure { description: String },
    /// One argument failed coercion, with the raw text the user supplied
    /// when it is available.
    ArgumentParseFailure { failure: ArgParseKind, raw_input: Option<String> },
    /// The declared command does not match the way it was invoked.
    StructuralMismatch { description: String },
    /// The command is rate-limited for this many more seconds.
    CooldownActive { remaining_secs: u64 },
    /// The bot itself lacks a capability it needs.
    MissingBotCapability { capability: String },
    /// The invoking user lacks a capability the command needs.
    MissingUserCapability { capability: String },
    /// The command is restricted to the bot's owner.
    NotOwner,
    /// The command can only run inside a server.
    GuildOnlyViolation,
    /// The command can only run in direct messages.
    DmOnlyViolation,
    /// The command can only run in an age-restricted channel.
    RestrictedContextViolation,
    /// A permission check failed, with the underlying error's text when
    /// the check itself errored.
    CheckFailed { underlying: Option<String> },
    /// The command handler ran and failed.
    CommandFailure { error: CommandError },
    /// Dynamic prefix resolution failed; no user context exists.
    DynamicResolutionFailure { description: String },
    /// A failure outside the enumerated categories, carrying its debug
    /// text. It is only ever logged, never shown to the user.
    Unclassified { debug: String },
}

/// What the router knows about the invocation a failure belongs to.
pub struct InvocationInfo {
    /// The qualified name of the invoked command, empty when none applies.
    pub command: String,
    /// Whether the invocation method allows a private, author-only
    /// acknowledgment (an interactive invocation as opposed to a plain
    /// text message).
    pub interactive: bool,
}

/// Mathematical model of an [`InvocationInfo`].
#[verifier::ext_equal]
pub ghost struct InvocationView {
    pub command: Seq<char>,
    pub interactive: bool,
}

impl View for InvocationInfo {
    type V = InvocationView;

    open spec fn view(&self) -> InvocationView {
        InvocationView { command: self.command@, interactive: self.interactive }
    }
}

} // verus!
