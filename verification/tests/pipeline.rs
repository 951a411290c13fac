use robbb::argument::argument_failure_message;
use robbb::command::classify_command_error;
use robbb::report::Severity;
use robbb::router::{delivery_followup, route};
use robbb::taxonomy::{
    ArgParseKind, ClientError, CommandError, DomainError, ErrorKind, InvocationInfo,
};

fn ctx(interactive: bool) -> InvocationInfo {
    InvocationInfo { command: String::from("tag"), interactive }
}

#[test]
fn duration_failure_names_the_raw_input() {
    let msg = argument_failure_message(ArgParseKind::InvalidDuration, &Some(String::from("abc")));
    assert_eq!(msg.as_str(), "'abc' is not a valid duration");
}

#[test]
fn duration_failure_without_raw_input_quotes_nothing() {
    let msg = argument_failure_message(ArgParseKind::InvalidDuration, &None);
    assert_eq!(msg.as_str(), "'' is not a valid duration");
}

#[test]
fn too_many_arguments_ignores_raw_input() {
    let msg = argument_failure_message(
        ArgParseKind::TooManyArguments,
        &Some(String::from("10 minutes")),
    );
    assert_eq!(msg.as_str(), "Too many arguments");
}

#[test]
fn too_few_arguments_has_its_fixed_message() {
    let msg = argument_failure_message(ArgParseKind::TooFewArguments, &None);
    assert_eq!(msg.as_str(), "Too few arguments");
}

#[test]
fn unknown_user_reference_names_the_raw_input() {
    let msg = argument_failure_message(ArgParseKind::UnknownUser, &Some(String::from("alice")));
    assert_eq!(msg.as_str(), "I couldn't find any user 'alice'");
}

#[test]
fn unknown_member_reference_names_the_raw_input() {
    let msg = argument_failure_message(ArgParseKind::UnknownMember, &Some(String::from("bob")));
    assert_eq!(msg.as_str(), "I couldn't find any member 'bob'");
}

#[test]
fn other_failure_with_raw_input_is_malformed() {
    let msg = argument_failure_message(ArgParseKind::Other, &Some(String::from("@@")));
    assert_eq!(msg.as_str(), "Malformed argument '@@'");
}

#[test]
fn other_failure_without_raw_input_is_incorrect_use() {
    let msg = argument_failure_message(ArgParseKind::Other, &None);
    assert_eq!(msg.as_str(), "Command used incorrectly");
}

#[test]
fn reference_not_found_renders_fixed_text_at_info() {
    let out = classify_command_error(
        CommandError::Domain(DomainError::ReferenceNotFound),
        "highlights",
    );
    let reply = out.reply.expect("a reply is attempted");
    assert_eq!(reply.text.as_str(), "No user found with that name");
    assert!(!reply.ephemeral);
    assert_eq!(out.log.severity, Severity::Info);
}

#[test]
fn reported_domain_error_is_prefixed_and_logged_at_info() {
    let out = classify_command_error(
        CommandError::Domain(DomainError::Reported { message: String::from("no such tag") }),
        "tag",
    );
    assert_eq!(out.reply.as_ref().unwrap().text.as_str(), "Error: no such tag");
    assert_eq!(out.log.severity, Severity::Info);
    assert_eq!(out.log.command.as_deref(), Some("tag"));
    assert_eq!(out.log.detail.as_deref(), Some("no such tag"));
}

#[test]
fn not_found_transport_with_unknown_user_message() {
    let out = classify_command_error(
        CommandError::Client(ClientError::Transport {
            status: 404,
            message: String::from("Unknown User sent by server"),
        }),
        "modping",
    );
    assert_eq!(out.reply.unwrap().text.as_str(), "User not found");
}

#[test]
fn not_found_transport_with_other_message_is_generic() {
    let out = classify_command_error(
        CommandError::Client(ClientError::Transport {
            status: 404,
            message: String::from("Unknown Channel"),
        }),
        "modping",
    );
    assert_eq!(out.reply.unwrap().text.as_str(), "Something went wrong");
}

#[test]
fn other_status_transport_is_generic_even_for_unknown_user() {
    let out = classify_command_error(
        CommandError::Client(ClientError::Transport {
            status: 500,
            message: String::from("unknown user"),
        }),
        "modping",
    );
    assert_eq!(out.reply.unwrap().text.as_str(), "Something went wrong");
}

#[test]
fn transport_failures_log_at_warn_with_the_server_message() {
    let out = classify_command_error(
        CommandError::Client(ClientError::Transport {
            status: 502,
            message: String::from("bad gateway"),
        }),
        "modping",
    );
    assert_eq!(out.log.severity, Severity::Warn);
    assert_eq!(out.log.detail.as_deref(), Some("bad gateway"));
}

#[test]
fn model_validation_message_is_surfaced_verbatim() {
    let out = classify_command_error(
        CommandError::Client(ClientError::ModelValidation {
            message: String::from("invalid channel"),
        }),
        "poll",
    );
    assert_eq!(out.reply.unwrap().text.as_str(), "invalid channel");
    assert_eq!(out.log.severity, Severity::Warn);
}

#[test]
fn internal_error_text_is_never_surfaced() {
    let out = classify_command_error(
        CommandError::Internal {
            display: String::from("db: connection reset"),
            debug: String::from("Io(ConnectionReset)"),
        },
        "tag",
    );
    assert_eq!(out.reply.unwrap().text.as_str(), "Something went wrong");
    assert_eq!(out.log.severity, Severity::Warn);
    assert_eq!(out.log.detail.as_deref(), Some("Io(ConnectionReset)"));
}

#[test]
fn classifier_is_deterministic_across_calls() {
    let make = || {
        CommandError::Client(ClientError::Transport {
            status: 404,
            message: String::from("Unknown User"),
        })
    };
    let first = classify_command_error(make(), "modping");
    let second = classify_command_error(make(), "modping");
    let a = first.reply.unwrap();
    let b = second.reply.unwrap();
    assert_eq!(a.text, b.text);
    assert_eq!(a.ephemeral, b.ephemeral);
    assert_eq!(first.log.severity, second.log.severity);
    assert_eq!(first.log.message, second.log.message);
    assert_eq!(first.log.command, second.log.command);
    assert_eq!(first.log.kind, second.log.kind);
    assert_eq!(first.log.detail, second.log.detail);
}

#[test]
fn setup_failure_logs_without_replying() {
    let out = route(
        ErrorKind::SetupFailure { description: String::from("bad token") },
        &ctx(false),
    );
    assert!(out.reply.is_none());
    assert_eq!(out.log.severity, Severity::Error);
    assert_eq!(out.log.kind.as_str(), "setup");
    assert_eq!(out.log.detail.as_deref(), Some("bad token"));
}

#[test]
fn listener_failure_logs_without_replying() {
    let out = route(
        ErrorKind::ListenerFailure { description: String::from("event decode") },
        &ctx(false),
    );
    assert!(out.reply.is_none());
    assert_eq!(out.log.severity, Severity::Error);
}

#[test]
fn structural_mismatch_replies_generically_and_logs_at_error() {
    let out = route(
        ErrorKind::StructuralMismatch { description: String::from("missing option") },
        &ctx(true),
    );
    assert_eq!(out.reply.unwrap().text.as_str(), "Something went wrong");
    assert_eq!(out.log.severity, Severity::Error);
    assert_eq!(out.log.detail.as_deref(), Some("missing option"));
}

#[test]
fn cooldown_names_the_remaining_time() {
    let out = route(ErrorKind::CooldownActive { remaining_secs: 300 }, &ctx(false));
    assert_eq!(
        out.reply.unwrap().text.as_str(),
        "You're doing this too much. Try again in 5m"
    );
    assert_eq!(out.log.severity, Severity::Info);
    assert_eq!(out.log.detail.as_deref(), Some("5m"));
}

#[test]
fn cooldown_renders_compound_durations() {
    let out = route(ErrorKind::CooldownActive { remaining_secs: 90 }, &ctx(false));
    assert_eq!(
        out.reply.unwrap().text.as_str(),
        "You're doing this too much. Try again in 1m 30s"
    );
}

#[test]
fn missing_bot_capability_is_disclosed() {
    let out = route(
        ErrorKind::MissingBotCapability { capability: String::from("MANAGE_MESSAGES") },
        &ctx(false),
    );
    assert_eq!(
        out.reply.unwrap().text.as_str(),
        "It seems like I am lacking the MANAGE_MESSAGES permission"
    );
    assert_eq!(out.log.severity, Severity::Error);
}

#[test]
fn missing_user_capability_is_withheld_from_the_reply() {
    let out = route(
        ErrorKind::MissingUserCapability { capability: String::from("ADMINISTRATOR") },
        &ctx(false),
    );
    let reply = out.reply.unwrap();
    assert_eq!(reply.text.as_str(), "Missing permissions");
    assert!(!reply.text.contains("ADMINISTRATOR"));
    assert_eq!(out.log.detail.as_deref(), Some("ADMINISTRATOR"));
    assert_eq!(out.log.severity, Severity::Error);
}

#[test]
fn routine_access_checks_reply_without_error_logs() {
    let cases = [
        (ErrorKind::NotOwner, "You need to be an owner to do this"),
        (ErrorKind::GuildOnlyViolation, "This can only be ran in a server"),
        (ErrorKind::DmOnlyViolation, "This can only be used in DMs"),
        (
            ErrorKind::RestrictedContextViolation,
            "This can only be used in NSFW channels",
        ),
    ];
    for (kind, expected) in cases {
        let out = route(kind, &ctx(false));
        assert_eq!(out.reply.unwrap().text.as_str(), expected);
        assert_eq!(out.log.severity, Severity::Info);
    }
}

#[test]
fn check_failure_with_underlying_error_logs_at_error() {
    let out = route(
        ErrorKind::CheckFailed { underlying: Some(String::from("lookup failed")) },
        &ctx(false),
    );
    assert_eq!(
        out.reply.unwrap().text.as_str(),
        "Something went wrong while checking your permissions"
    );
    assert_eq!(out.log.severity, Severity::Error);
    assert_eq!(out.log.detail.as_deref(), Some("lookup failed"));
}

#[test]
fn plain_check_failure_in_interactive_context_is_ephemeral() {
    let out = route(ErrorKind::CheckFailed { underlying: None }, &ctx(true));
    let reply = out.reply.unwrap();
    assert_eq!(reply.text.as_str(), "Insufficient permissions");
    assert!(reply.ephemeral);
}

#[test]
fn plain_check_failure_in_text_context_stays_silent() {
    let out = route(ErrorKind::CheckFailed { underlying: None }, &ctx(false));
    assert!(out.reply.is_none());
    assert_eq!(out.log.severity, Severity::Info);
}

#[test]
fn argument_parse_failures_route_through_the_argument_classifier() {
    let out = route(
        ErrorKind::ArgumentParseFailure {
            failure: ArgParseKind::InvalidDuration,
            raw_input: Some(String::from("soon")),
        },
        &ctx(false),
    );
    assert_eq!(out.reply.unwrap().text.as_str(), "'soon' is not a valid duration");
    assert_eq!(out.log.severity, Severity::Info);
    assert_eq!(out.log.detail.as_deref(), Some("soon"));
}

#[test]
fn command_failures_route_through_the_command_classifier() {
    let out = route(
        ErrorKind::CommandFailure {
            error: CommandError::Domain(DomainError::ReferenceNotFound),
        },
        &ctx(false),
    );
    assert_eq!(out.reply.unwrap().text.as_str(), "No user found with that name");
    assert_eq!(out.log.command.as_deref(), Some("tag"));
}

#[test]
fn dynamic_resolution_failure_logs_without_replying() {
    let out = route(
        ErrorKind::DynamicResolutionFailure { description: String::from("prefix fetch") },
        &ctx(false),
    );
    assert!(out.reply.is_none());
    assert_eq!(out.log.severity, Severity::Error);
}

#[test]
fn unclassified_failure_is_only_logged() {
    let out = route(ErrorKind::Unclassified { debug: String::from("Shutdown") }, &ctx(false));
    assert!(out.reply.is_none());
    assert_eq!(out.log.severity, Severity::Error);
    assert_eq!(out.log.detail.as_deref(), Some("Shutdown"));
}

#[test]
fn every_kind_yields_exactly_one_log_and_at_most_one_reply() {
    let kinds = vec![
        ErrorKind::SetupFailure { description: String::new() },
        ErrorKind::ListenerFailure { description: String::new() },
        ErrorKind::ArgumentParseFailure { failure: ArgParseKind::Other, raw_input: None },
        ErrorKind::StructuralMismatch { description: String::new() },
        ErrorKind::CooldownActive { remaining_secs: 1 },
        ErrorKind::MissingBotCapability { capability: String::new() },
        ErrorKind::MissingUserCapability { capability: String::new() },
        ErrorKind::NotOwner,
        ErrorKind::GuildOnlyViolation,
        ErrorKind::DmOnlyViolation,
        ErrorKind::RestrictedContextViolation,
        ErrorKind::CheckFailed { underlying: None },
        ErrorKind::CommandFailure {
            error: CommandError::Internal {
                display: String::from("boom"),
                debug: String::from("Boom"),
            },
        },
        ErrorKind::DynamicResolutionFailure { description: String::new() },
        ErrorKind::Unclassified { debug: String::new() },
    ];
    for kind in kinds {
        let out = route(kind, &ctx(false));
        // The log record is mandatory; the reply is optional. Reading both
        // fields is all it takes: the structure admits no second of either.
        assert!(!out.log.message.is_empty());
        if let Some(reply) = out.reply {
            assert!(!reply.text.is_empty());
        }
    }
}

#[test]
fn failed_delivery_is_absorbed_into_a_single_log_record() {
    let followup = delivery_followup(Some(String::from("Missing Access")));
    let record = followup.expect("a failed delivery is logged");
    assert_eq!(record.severity, Severity::Error);
    assert_eq!(record.detail.as_deref(), Some("Missing Access"));
}

#[test]
fn successful_delivery_needs_no_followup() {
    assert!(delivery_followup(None).is_none());
}
