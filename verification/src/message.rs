//! The values that pass through the moderator: the message that came in and
//! the report that may go out.

use vstd::prelude::*;

verus! {

/// One chat message as the gateway delivered it.
#[derive(Clone, Debug)]
pub struct InboundMessage {
    /// The community the message was posted in; absent for a direct message.
    pub community_id: Option<u64>,
    /// Whether the author is a bot account.
    pub author_is_bot: bool,
    /// The author's account.
    pub author_id: u64,
    /// What the message says.
    pub text: String,
    /// A link that leads back to the message.
    pub permalink: String,
}

/// The notification for the moderators about one violating message.
#[derive(Clone, Debug)]
pub struct Report {
    /// The channel that the report is posted to.
    pub channel_id: u64,
    /// The heading of the report.
    pub title: String,
    /// The message's text, cut to a bounded number of grapheme clusters.
    pub summary_text: String,
    /// The link that leads back to the message.
    pub source_link: String,
    /// A closing line, such as how long the judgement took.
    pub footer: Option<String>,
}

} // verus!
