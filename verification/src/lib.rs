//! The unified error classification and response pipeline of a
//! command-driven chat bot, together with the small pieces of pure logic
//! behind its commands and persistence layer.
//!
//! Every failure that can occur while dispatching a command — malformed
//! input, permission denial, cooldowns, structural mismatches, domain
//! errors, opaque internal errors — is resolved into at most one
//! user-facing [`report::Reply`] and exactly one [`report::LogRecord`],
//! and is never re-raised.

pub mod argument;
pub mod command;
pub mod emoji;
pub mod poll;
pub mod profile;
pub mod report;
pub mod router;
pub mod tag;
pub mod taxonomy;
pub mod text;
