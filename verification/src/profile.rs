//! Pure logic behind the small informational commands: choosing the
//! response for a member's stored profile field, and the message latency
//! computation.

use vstd::prelude::*;
use vstd::string::*;

use crate::text::concat2;

verus! {

/// The stored profile fields a member can publish about themselves.
#[derive(Clone, Copy, Debug, PartialEq, Eq, Structural)]
pub enum ProfileField {
    Description,
    Dotfiles,
    Git,
}

/// The response chosen for a profile-field request: an embed when the
/// member has stored the field, an error message otherwise.
pub enum ProfileReply {
    Embed { title: String, body: String },
    Missing { text: String },
}

/// The embed title shown for each profile field.
pub open spec fn spec_field_title(field: ProfileField) -> Seq<char> {
    match field {
        ProfileField::Description => "Description"@,
        ProfileField::Dotfiles => "Dotfiles"@,
        ProfileField::Git => "Git profile"@,
    }
}

/// What the error message says after the member's tag when the field is
/// not stored.
pub open spec fn spec_field_missing(field: ProfileField) -> Seq<char> {
    match field {
        ProfileField::Description => " hasn't set their description"@,
        ProfileField::Dotfiles => " hasn't provided their dotfiles"@,
        ProfileField::Git => " hasn't provided their git profile"@,
    }
}

/// Chooses the response for a profile-field request: the stored value in
/// an embed when present, otherwise an error naming the member.
pub fn profile_field_reply(field: ProfileField, value: Option<String>, user_tag: &str) -> (r:
    ProfileReply)
    ensures
        value matches Some(v) ==> (r matches ProfileReply::Embed { title, body } && title@
            == spec_field_title(field) && body@ == v@),
        value is None ==> (r matches ProfileReply::Missing { text } && text@ == user_tag@
            + spec_field_missing(field)),
{
    match value {
        Some(v) => {
            let title = match field {
                ProfileField::Description => String::from_str("Description"),
                ProfileField::Dotfiles => String::from_str("Dotfiles"),
                ProfileField::Git => String::from_str("Git profile"),
            };
            ProfileReply::Embed { title, body: v }
        },
        None => {
            let text = match field {
                ProfileField::Description => concat2(user_tag, " hasn't set their description"),
                ProfileField::Dotfiles => concat2(user_tag, " hasn't provided their dotfiles"),
                ProfileField::Git => concat2(user_tag, " hasn't provided their git profile"),
            };
            ProfileReply::Missing { text }
        },
    }
}

/// The absolute difference between two millisecond timestamps: how long a
/// message took from being sent to being received.
pub fn latency_millis(now_ms: i64, sent_ms: i64) -> (r: u64)
    ensures
        r == if now_ms >= sent_ms {
            now_ms - sent_ms
        } else {
            sent_ms - now_ms
        },
{
    let d: i128 = now_ms as i128 - sent_ms as i128;
    if d >= 0 {
        d as u64
    } else {
        (-d) as u64
    }
}

} // verus!
