use chat_moderation::classifier::ModelOutcome;
use chat_moderation::config::{ChannelMapping, ModeratorConfig};
use chat_moderation::handler::{
    compose_report, handle, report_on_outcome, screen, DiscardReason, Screening,
};
use chat_moderation::message::InboundMessage;

const SELF_ID: u64 = 999;
const COMMUNITY: u64 = 10;
const CHANNEL: u64 = 100;

fn config() -> ModeratorConfig {
    let mut mapping = ChannelMapping::new();
    mapping.insert(COMMUNITY, CHANNEL);
    mapping.insert(20, 200);
    ModeratorConfig::new(SELF_ID, mapping)
}

fn message(community_id: Option<u64>, text: &str) -> InboundMessage {
    InboundMessage {
        community_id,
        author_is_bot: false,
        author_id: 5,
        text: text.to_string(),
        permalink: "https://chat.example/channels/10/77/1234".to_string(),
    }
}

fn answer(text: &str) -> ModelOutcome {
    ModelOutcome::Content(text.to_string())
}

/// Runs the handler as its caller does and counts the model calls.
fn run(
    config: &ModeratorConfig,
    message: &InboundMessage,
    outcome: ModelOutcome,
    calls: &mut usize,
) -> Option<chat_moderation::message::Report> {
    match screen(config, message) {
        Screening::Discard(_) => None,
        Screening::Classify { report_channel } => {
            *calls += 1;
            report_on_outcome(report_channel, message, &outcome, None)
        }
    }
}

#[test]
fn empty_content_is_neither_judged_nor_reported() {
    let mut calls = 0;
    let msg = message(Some(COMMUNITY), "");
    assert_eq!(screen(&config(), &msg), Screening::Discard(DiscardReason::EmptyContent));
    let report = run(&config(), &msg, answer("{\"violates_rules\": true}"), &mut calls);
    assert!(report.is_none());
    assert_eq!(calls, 0);
}

#[test]
fn violating_message_is_reported_once_to_the_mapped_channel() {
    let mut calls = 0;
    let text = "Looking for a senior backend engineer, DM me your resume!";
    let msg = message(Some(COMMUNITY), text);
    assert_eq!(screen(&config(), &msg), Screening::Classify { report_channel: CHANNEL });
    let report = run(&config(), &msg, answer("{\"violates_rules\": true}"), &mut calls).unwrap();
    assert_eq!(calls, 1);
    assert_eq!(report.channel_id, CHANNEL);
    assert_eq!(report.title, "found violating message");
    assert_eq!(report.summary_text, text);
    assert_eq!(report.source_link, "https://chat.example/channels/10/77/1234");
    assert_eq!(report.footer, None);
}

#[test]
fn harmless_message_is_not_reported() {
    let mut calls = 0;
    let msg = message(Some(COMMUNITY), "Check out my weekend hiking photos!");
    let report = run(&config(), &msg, answer("{\"violates_rules\": false}"), &mut calls);
    assert!(report.is_none());
    assert_eq!(calls, 1);
}

#[test]
fn unmapped_community_is_never_judged() {
    let mut calls = 0;
    for text in ["Looking for a senior backend engineer, DM me your resume!", "hello", "x"] {
        let msg = message(Some(12345), text);
        assert_eq!(
            screen(&config(), &msg),
            Screening::Discard(DiscardReason::UnmappedCommunity)
        );
        assert!(run(&config(), &msg, answer("{\"violates_rules\": true}"), &mut calls).is_none());
    }
    assert_eq!(calls, 0);
}

#[test]
fn failed_model_call_gives_no_report() {
    let mut calls = 0;
    let msg = message(Some(COMMUNITY), "We are hiring, send your CV");
    let outcome = ModelOutcome::CallFailed("connection reset".to_string());
    assert!(run(&config(), &msg, outcome, &mut calls).is_none());
    assert_eq!(calls, 1);
    assert!(report_on_outcome(CHANNEL, &msg, &ModelOutcome::NoChoices, None).is_none());
    assert!(report_on_outcome(CHANNEL, &msg, &ModelOutcome::NoContent, None).is_none());
    assert!(report_on_outcome(CHANNEL, &msg, &answer("oops"), None).is_none());
}

#[test]
fn message_outside_any_community_is_discarded() {
    let mut calls = 0;
    let msg = message(None, "We are hiring");
    assert_eq!(screen(&config(), &msg), Screening::Discard(DiscardReason::NoCommunity));
    assert!(run(&config(), &msg, answer("{\"violates_rules\": true}"), &mut calls).is_none());
    assert_eq!(calls, 0);
}

#[test]
fn bot_messages_are_discarded() {
    let mut calls = 0;
    let mut msg = message(Some(COMMUNITY), "We are hiring");
    msg.author_is_bot = true;
    assert_eq!(screen(&config(), &msg), Screening::Discard(DiscardReason::BotAuthor));
    assert!(run(&config(), &msg, answer("{\"violates_rules\": true}"), &mut calls).is_none());
    assert_eq!(calls, 0);
}

#[test]
fn own_messages_are_discarded() {
    let mut calls = 0;
    let mut msg = message(Some(COMMUNITY), "found violating message");
    msg.author_id = SELF_ID;
    assert_eq!(screen(&config(), &msg), Screening::Discard(DiscardReason::SelfAuthor));
    assert!(run(&config(), &msg, answer("{\"violates_rules\": true}"), &mut calls).is_none());
    assert_eq!(calls, 0);
}

#[test]
fn checks_run_in_their_order() {
    let mut msg = message(None, "");
    msg.author_is_bot = true;
    msg.author_id = SELF_ID;
    assert_eq!(screen(&config(), &msg), Screening::Discard(DiscardReason::NoCommunity));
    msg.community_id = Some(12345);
    assert_eq!(screen(&config(), &msg), Screening::Discard(DiscardReason::EmptyContent));
    msg.text = "hello".to_string();
    assert_eq!(screen(&config(), &msg), Screening::Discard(DiscardReason::BotAuthor));
    msg.author_is_bot = false;
    assert_eq!(screen(&config(), &msg), Screening::Discard(DiscardReason::SelfAuthor));
    msg.author_id = 5;
    assert_eq!(screen(&config(), &msg), Screening::Discard(DiscardReason::UnmappedCommunity));
    msg.community_id = Some(20);
    assert_eq!(screen(&config(), &msg), Screening::Classify { report_channel: 200 });
}

#[test]
fn report_summary_is_cut_to_512_clusters() {
    let text = "e\u{301}".repeat(700);
    let msg = message(Some(COMMUNITY), &text);
    let report = compose_report(CHANNEL, &msg, Some("took 1.25 seconds".to_string()));
    assert_eq!(report.summary_text, "e\u{301}".repeat(512));
    assert_eq!(report.footer, Some("took 1.25 seconds".to_string()));
    assert_eq!(report.source_link, msg.permalink);
    assert_eq!(report.channel_id, CHANNEL);
}

#[test]
fn handle_reports_only_screened_violations() {
    let positive = answer("{\"violates_rules\": true}");
    let negative = answer("{\"violates_rules\": false}");
    let hiring = message(Some(20), "We are hiring, send your CV");
    let report = handle(&config(), &hiring, &positive, Some("took 0.40 seconds".to_string()));
    let report = report.unwrap();
    assert_eq!(report.channel_id, 200);
    assert_eq!(report.summary_text, "We are hiring, send your CV");
    assert_eq!(report.footer, Some("took 0.40 seconds".to_string()));
    assert!(handle(&config(), &hiring, &negative, None).is_none());
    assert!(handle(&config(), &hiring, &ModelOutcome::NoChoices, None).is_none());
    assert!(handle(&config(), &message(Some(30), "We are hiring"), &positive, None).is_none());
    assert!(handle(&config(), &message(None, "We are hiring"), &positive, None).is_none());
    assert!(handle(&config(), &message(Some(20), ""), &positive, None).is_none());
}

#[test]
fn standard_configuration_screens_its_communities() {
    let config = ModeratorConfig::standard();
    let msg = message(Some(238666723824238602), "We are hiring");
    assert_eq!(
        screen(&config, &msg),
        Screening::Classify { report_channel: 1315930244682743839 }
    );
    let mut own = message(Some(238666723824238602), "report");
    own.author_id = 1314997214866571284;
    assert_eq!(screen(&config, &own), Screening::Discard(DiscardReason::SelfAuthor));
}
