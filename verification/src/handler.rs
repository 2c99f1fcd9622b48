//! The moderation handler: which messages are judged at all, and what is
//! reported once the model has answered.
//!
//! A message is handled in two steps with the model call between them.
//! `screen` decides whether the model is asked; `report_on_outcome` decides
//! from the answer whether a report goes out. Neither keeps anything from
//! one message to the next.

use vstd::prelude::*;
use vstd::string::*;
use crate::classifier::{evaluate, verdict_of, ModelOutcome, Verdict};
use crate::config::ModeratorConfig;
use crate::message::{InboundMessage, Report};
use crate::summary::{grapheme_clusters, summarize, summary_of, SUMMARY_LIMIT};

verus! {

/// Why a message is not judged.
#[derive(Clone, Copy, Debug, PartialEq, Eq, Structural)]
pub enum DiscardReason {
    /// The message belongs to no community.
    NoCommunity,
    /// The message has no text.
    EmptyContent,
    /// A bot wrote the message.
    BotAuthor,
    /// The moderator itself wrote the message.
    SelfAuthor,
    /// The community has no report channel.
    UnmappedCommunity,
}

/// What is done with a message that came in.
#[derive(Clone, Copy, Debug, PartialEq, Eq, Structural)]
pub enum Screening {
    /// Nothing: the model is not asked and nothing is reported.
    Discard(DiscardReason),
    /// The model is asked; a report would go to `report_channel`.
    Classify { report_channel: u64 },
}

/// The screening of a message by the account `self_id` under the table
/// `mapping`. The checks run in this order: the community is there, the text
/// is not empty, the author is no bot, the author is not the moderator, the
/// community has a report channel.
pub open spec fn screening_of(
    self_id: u64,
    mapping: Map<u64, u64>,
    message: InboundMessage,
) -> Screening {
    match message.community_id {
        None => Screening::Discard(DiscardReason::NoCommunity),
        Some(community) => if message.text@.len() == 0 {
            Screening::Discard(DiscardReason::EmptyContent)
        } else if message.author_is_bot {
            Screening::Discard(DiscardReason::BotAuthor)
        } else if message.author_id == self_id {
            Screening::Discard(DiscardReason::SelfAuthor)
        } else if !mapping.contains_key(community) {
            Screening::Discard(DiscardReason::UnmappedCommunity)
        } else {
            Screening::Classify { report_channel: mapping[community] }
        },
    }
}

/// The heading of every report.
pub open spec fn report_title() -> Seq<char> {
    "found violating message"@
}

/// Whether `report` is the report about `message` for the channel
/// `report_channel` with the closing line `footer`.
pub open spec fn is_report_for(
    report: Report,
    report_channel: u64,
    message: InboundMessage,
    footer: Option<String>,
) -> bool {
    &&& report.channel_id == report_channel
    &&& report.title@ == report_title()
    &&& report.summary_text@ == summary_of(
        grapheme_clusters(message.text@),
        SUMMARY_LIMIT as nat,
    )
    &&& report.source_link@ == message.permalink@
    &&& report.footer == footer
}

/// Decides whether the model is asked about `message`.
pub fn screen(config: &ModeratorConfig, message: &InboundMessage) -> (screening: Screening)
    ensures
        screening == screening_of(config.self_id, config.mapping@, *message),
        screening is Classify <==> {
            &&& message.community_id is Some
            &&& config.mapping@.contains_key(message.community_id.unwrap())
            &&& message.text@.len() > 0
            &&& !message.author_is_bot
            &&& message.author_id != config.self_id
        },
{
    let community = match message.community_id {
        Some(community) => community,
        None => {
            return Screening::Discard(DiscardReason::NoCommunity);
        },
    };
    if message.text.as_str().is_empty() {
        return Screening::Discard(DiscardReason::EmptyContent);
    }
    if message.author_is_bot {
        return Screening::Discard(DiscardReason::BotAuthor);
    }
    if message.author_id == config.self_id {
        return Screening::Discard(DiscardReason::SelfAuthor);
    }
    match config.mapping.destination(community) {
        Some(report_channel) => Screening::Classify { report_channel },
        None => Screening::Discard(DiscardReason::UnmappedCommunity),
    }
}

/// Builds the report about `message` for `report_channel`: the message's
/// text cut to the summary limit, and the link back to it.
pub fn compose_report(
    report_channel: u64,
    message: &InboundMessage,
    footer: Option<String>,
) -> (report: Report)
    ensures
        is_report_for(report, report_channel, *message, footer),
        report.summary_text@.is_prefix_of(message.text@),
        message.text@.len() > 0 ==> report.summary_text@.len() > 0,
{
    Report {
        channel_id: report_channel,
        title: String::from_str("found violating message"),
        summary_text: summarize(message.text.as_str(), SUMMARY_LIMIT),
        source_link: message.permalink.clone(),
        footer,
    }
}

/// Decides from the model's answer whether `message` is reported: it is if
/// and only if the answer is a violation verdict.
pub fn report_on_outcome(
    report_channel: u64,
    message: &InboundMessage,
    outcome: &ModelOutcome,
    footer: Option<String>,
) -> (report: Option<Report>)
    ensures
        report is Some <==> verdict_of(*outcome) == Verdict::Violates,
        report is Some ==> is_report_for(report.unwrap(), report_channel, *message, footer),
{
    if evaluate(outcome) {
        Some(compose_report(report_channel, message, footer))
    } else {
        None
    }
}

/// Handles one message from beginning to end, given how the model call
/// ends if it is made: the report to send, if any.
pub fn handle(
    config: &ModeratorConfig,
    message: &InboundMessage,
    outcome: &ModelOutcome,
    footer: Option<String>,
) -> (report: Option<Report>)
    ensures
        report is Some <==> (screening_of(config.self_id, config.mapping@, *message) is Classify
            && verdict_of(*outcome) == Verdict::Violates),
        report is Some ==> is_report_for(
            report.unwrap(),
            config.mapping@[message.community_id.unwrap()],
            *message,
            footer,
        ),
{
    match screen(config, message) {
        Screening::Discard(_) => None,
        Screening::Classify { report_channel } => report_on_outcome(
            report_channel,
            message,
            outcome,
            footer,
        ),
    }
}

/// A message without a mapped community, without text, from a bot or from
/// the moderator itself is discarded: the model is never asked about it.
pub proof fn lemma_filtered_messages_are_discarded(
    self_id: u64,
    mapping: Map<u64, u64>,
    message: InboundMessage,
)
    requires
        message.community_id is None || !mapping.contains_key(message.community_id.unwrap())
            || message.text@.len() == 0 || message.author_is_bot || message.author_id == self_id,
    ensures
        screening_of(self_id, mapping, message) is Discard,
{
}

} // verus!
