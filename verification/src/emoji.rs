//! Emoji usage statistics: the data the persistence layer stores about
//! each emoji, and the pure conversions between stored rows and the
//! statistics handed to callers.

use vstd::prelude::*;
use vstd::string::*;

verus! {

/// Identifies one custom emoji by its numeric id, animation flag and name.
pub struct EmojiIdent {
    pub id: u64,
    pub animated: bool,
    pub name: String,
}

/// How often one emoji was used, in reactions and inside message text.
pub struct EmojiStats {
    pub emoji: EmojiIdent,
    pub reactions: u64,
    pub in_text: u64,
}

impl EmojiStats {
    /// Fresh statistics for an emoji that was never counted.
    pub fn new(emoji_id: EmojiIdent) -> (s: EmojiStats)
        ensures
            s.emoji.id == emoji_id.id,
            s.emoji.animated == emoji_id.animated,
            s.emoji.name@ == emoji_id.name@,
            s.reactions == 0,
            s.in_text == 0,
    {
        EmojiStats { emoji: emoji_id, reactions: 0, in_text: 0 }
    }
}

/// The direction in which emoji statistics are ranked by total usage.
#[derive(Clone, Copy, Debug, PartialEq, Eq, Structural)]
pub enum Ordering {
    Ascending,
    Descending,
}

/// The statistics one stored row stands for. Stored counters are signed;
/// a counter outside the unsigned range is truncated, as the store never
/// produces one.
pub fn emoji_stats_from_row(
    emoji_id: i64,
    emoji_name: String,
    animated: i64,
    reaction_usage: i64,
    in_text_usage: i64,
) -> (s: EmojiStats)
    ensures
        s.emoji.id == emoji_id as u64,
        s.emoji.animated == (animated != 0),
        s.emoji.name@ == emoji_name@,
        s.reactions == reaction_usage as u64,
        s.in_text == in_text_usage as u64,
{
    EmojiStats {
        emoji: EmojiIdent {
            id: #[verifier::truncate] (emoji_id as u64),
            animated: animated != 0,
            name: emoji_name,
        },
        reactions: #[verifier::truncate] (reaction_usage as u64),
        in_text: #[verifier::truncate] (in_text_usage as u64),
    }
}

/// The statistics an id lookup hands back: the stored row when one
/// exists, fresh zero statistics for the looked-up emoji otherwise.
pub fn emoji_usage_or_default(row: Option<EmojiStats>, emoji: EmojiIdent) -> (s: EmojiStats)
    ensures
        row matches Some(r) ==> s == r,
        row is None ==> (s.emoji.id == emoji.id && s.emoji.animated == emoji.animated
            && s.emoji.name@ == emoji.name@ && s.reactions == 0 && s.in_text == 0),
{
    match row {
        Some(r) => r,
        None => EmojiStats::new(emoji),
    }
}

/// The result of a name lookup: the stored row, or the message callers
/// report when no emoji of that name was ever counted.
pub fn named_emoji_usage(row: Option<EmojiStats>) -> (r: Result<EmojiStats, String>)
    ensures
        row matches Some(stats) ==> (r matches Ok(s) && s == stats),
        row is None ==> (r matches Err(m) && m@ == "Could not find emoji by that name"@),
{
    match row {
        Some(stats) => Ok(stats),
        None => Err(String::from_str("Could not find emoji by that name")),
    }
}

/// The statistics a whole result set stands for, row by row, in order.
pub fn emoji_stats_from_rows(rows: Vec<(i64, String, i64, i64, i64)>) -> (r: Vec<EmojiStats>)
    ensures
        r@.len() == rows@.len(),
        forall|i: int|
            0 <= i < rows@.len() ==> {
                &&& (#[trigger] r@[i]).emoji.id == rows@[i].0 as u64
                &&& r@[i].emoji.name@ == rows@[i].1@
                &&& r@[i].emoji.animated == (rows@[i].2 != 0)
                &&& r@[i].reactions == rows@[i].3 as u64
                &&& r@[i].in_text == rows@[i].4 as u64
            },
{
    let mut out: Vec<EmojiStats> = Vec::new();
    let mut idx: usize = 0;
    while idx < rows.len()
        invariant
            idx <= rows@.len(),
            out@.len() == idx,
            forall|i: int|
                0 <= i < idx ==> {
                    &&& (#[trigger] out@[i]).emoji.id == rows@[i].0 as u64
                    &&& out@[i].emoji.name@ == rows@[i].1@
                    &&& out@[i].emoji.animated == (rows@[i].2 != 0)
                    &&& out@[i].reactions == rows@[i].3 as u64
                    &&& out@[i].in_text == rows@[i].4 as u64
                },
        decreases rows@.len() - idx,
    {
        let row = &rows[idx];
        let s = emoji_stats_from_row(row.0, row.1.clone(), row.2, row.3, row.4);
        out.push(s);
        idx += 1;
    }
    out
}

} // verus!
