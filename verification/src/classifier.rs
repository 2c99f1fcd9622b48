//! The classifier: what is asked of the language model about one message,
//! and how its answer becomes a verdict.
//!
//! Only an answer that is exactly a JSON object with the one boolean member
//! `violates_rules` counts. Anything else is inconclusive, and an
//! inconclusive answer never accuses anybody.

use vstd::prelude::*;
use vstd::string::*;

verus! {

/// The most tokens the model may generate for one answer.
pub const MAX_OUTPUT_TOKENS: usize = 100;

/// What is sent to the model for one message. The sampling temperature is
/// not part of it: the caller fixes that at zero.
#[derive(Clone, Debug)]
pub struct ClassificationRequest {
    /// The rules, the same for every message.
    pub system_instructions: String,
    /// The message to judge.
    pub user_content: String,
    /// The cap on generated tokens.
    pub max_output_tokens: usize,
    /// The JSON schema that the answer is held to.
    pub response_schema: String,
}

/// How the call to the model ended.
#[derive(Clone, Debug)]
pub enum ModelOutcome {
    /// The call itself failed; the text says how.
    CallFailed(String),
    /// The model answered without a single choice.
    NoChoices,
    /// The first choice carries no content.
    NoContent,
    /// The content of the first choice.
    Content(String),
}

/// Why an answer says nothing about the message.
#[derive(Clone, Copy, Debug, PartialEq, Eq, Structural)]
pub enum InconclusiveReason {
    /// The call to the model failed.
    CallFailed,
    /// The model returned no choice.
    NoChoices,
    /// The choice had no content.
    NoContent,
    /// The content is not a JSON object.
    NotJsonObject,
    /// The content is a JSON object of another shape than the schema's.
    SchemaMismatch,
}

/// The judgement on one message.
#[derive(Clone, Copy, Debug, PartialEq, Eq, Structural)]
pub enum Verdict {
    /// The model found that the message breaks the rules.
    Violates,
    /// The model found that it does not.
    DoesNotViolate,
    /// The model's answer could not be used.
    Inconclusive(InconclusiveReason),
}

/// A well-formed answer of the model.
#[derive(Clone, Copy, Debug, PartialEq, Eq, Structural)]
pub struct Evaluation {
    pub violates_rules: bool,
}

/// The members of the JSON object that `text` is, each with its name and,
/// where its value is a boolean, that boolean; nothing where `text` is not
/// one JSON object.
pub uninterp spec fn json_object_members(text: Seq<char>) -> Option<Seq<(Seq<char>, Option<bool>)>>;

/// A list of members, each name by its characters.
pub open spec fn member_views(members: Seq<(String, Option<bool>)>) -> Seq<
    (Seq<char>, Option<bool>),
> {
    Seq::new(members.len(), |i: int| (members[i].0@, members[i].1))
}

/// The name of the one member that an answer has.
pub open spec fn verdict_member() -> Seq<char> {
    "violates_rules"@
}

/// What a JSON object with these members says: the boolean of its member
/// `violates_rules` where that is its only member and holds a boolean, and
/// nothing otherwise.
pub open spec fn evaluation_of(members: Seq<(Seq<char>, Option<bool>)>) -> Option<Evaluation> {
    if members.len() == 1 && members[0].0 == verdict_member() && members[0].1 is Some {
        Some(Evaluation { violates_rules: members[0].1.unwrap() })
    } else {
        None
    }
}

/// The verdict that the content of a choice amounts to.
pub open spec fn verdict_of_content(text: Seq<char>) -> Verdict {
    match json_object_members(text) {
        None => Verdict::Inconclusive(InconclusiveReason::NotJsonObject),
        Some(members) => verdict_of_members(members),
    }
}

/// The verdict that a JSON object with these members amounts to.
pub open spec fn verdict_of_members(members: Seq<(Seq<char>, Option<bool>)>) -> Verdict {
    match evaluation_of(members) {
        None => Verdict::Inconclusive(InconclusiveReason::SchemaMismatch),
        Some(evaluation) => if evaluation.violates_rules {
            Verdict::Violates
        } else {
            Verdict::DoesNotViolate
        },
    }
}

/// The verdict that the outcome of a model call amounts to.
pub open spec fn verdict_of(outcome: ModelOutcome) -> Verdict {
    match outcome {
        ModelOutcome::CallFailed(_) => Verdict::Inconclusive(InconclusiveReason::CallFailed),
        ModelOutcome::NoChoices => Verdict::Inconclusive(InconclusiveReason::NoChoices),
        ModelOutcome::NoContent => Verdict::Inconclusive(InconclusiveReason::NoContent),
        ModelOutcome::Content(text) => if text@.len() == 0 {
            Verdict::Inconclusive(InconclusiveReason::NoContent)
        } else {
            verdict_of_content(text@)
        },
    }
}

/// Parses `text` with `serde_json::from_str` into a `serde_json::Value` and
/// hands out the members of the object it is: `None` where the parser
/// refuses the text or the value is no object, and otherwise every member by
/// name with what `serde_json::Value::as_bool` gives for its value. Trusted,
/// and all that is claimed: the result depends on the text alone, so it is
/// what `json_object_members` names.
#[verifier::external_body]
fn parse_object_members(text: &str) -> (members: Option<Vec<(String, Option<bool>)>>)
    ensures
        match members {
            Some(list) => json_object_members(text@) == Some(member_views(list@)),
            None => json_object_members(text@) is None,
        },
{
    match serde_json::from_str::<serde_json::Value>(text) {
        Ok(serde_json::Value::Object(object)) => Some(
            object.into_iter().map(|(name, value)| (name, value.as_bool())).collect(),
        ),
        _ => None,
    }
}

/// The rules that every request states to the model.
pub fn system_instructions() -> (text: String)
    ensures
        text@ == system_instructions_text(),
{
    String::from_str(
        "You are a moderator for a Discord community.In this community users aren't allowed send messages containing job posts.Users can't list their skills to attract recruiters.You will be provided messages to evaluate whether user breaks these rules and you will respond true if it breaks rules, false if it doesn't.Don't try to make indirect connections to rules.",
    )
}

/// The text of the rules.
pub open spec fn system_instructions_text() -> Seq<char> {
    "You are a moderator for a Discord community.In this community users aren't allowed send messages containing job posts.Users can't list their skills to attract recruiters.You will be provided messages to evaluate whether user breaks these rules and you will respond true if it breaks rules, false if it doesn't.Don't try to make indirect connections to rules."@
}

/// The JSON schema of an answer: an object whose only member is the boolean
/// `violates_rules`.
pub fn response_schema() -> (text: String)
    ensures
        text@ == response_schema_text(),
{
    String::from_str(
        "{\"type\":\"object\",\"properties\":{\"violates_rules\":{\"type\":\"boolean\"}},\"required\":[\"violates_rules\"],\"additionalProperties\":false}",
    )
}

/// The text of the schema.
pub open spec fn response_schema_text() -> Seq<char> {
    "{\"type\":\"object\",\"properties\":{\"violates_rules\":{\"type\":\"boolean\"}},\"required\":[\"violates_rules\"],\"additionalProperties\":false}"@
}

/// Whether `request` is the request that asks the model about `content`:
/// the fixed rules, the content as it is, the fixed cap and the fixed schema.
pub open spec fn is_request_for(request: ClassificationRequest, content: Seq<char>) -> bool {
    &&& request.system_instructions@ == system_instructions_text()
    &&& request.user_content@ == content
    &&& request.max_output_tokens == MAX_OUTPUT_TOKENS
    &&& request.response_schema@ == response_schema_text()
}

/// The request that asks the model about `content`. It is built afresh for
/// every message, and differs from one message to the next in the content
/// alone.
pub fn build_request(content: &str) -> (request: ClassificationRequest)
    ensures
        is_request_for(request, content@),
{
    ClassificationRequest {
        system_instructions: system_instructions(),
        user_content: String::from_str(content),
        max_output_tokens: MAX_OUTPUT_TOKENS,
        response_schema: response_schema(),
    }
}

/// Reads the answer out of the members of a JSON object: the object must
/// have the member `violates_rules`, holding a boolean, and no other.
pub fn read_evaluation(members: &Vec<(String, Option<bool>)>) -> (evaluation: Option<Evaluation>)
    ensures
        evaluation == evaluation_of(member_views(members@)),
{
    if members.len() != 1 {
        return None;
    }
    let expected = String::from_str("violates_rules");
    let member = &members[0];
    if member.0 != expected {
        return None;
    }
    match member.1 {
        Some(flag) => Some(Evaluation { violates_rules: flag }),
        None => None,
    }
}

/// The verdict of a JSON object with the given members.
pub fn judge_members(members: &Vec<(String, Option<bool>)>) -> (verdict: Verdict)
    ensures
        verdict == verdict_of_members(member_views(members@)),
        verdict == Verdict::Violates <==> (members@.len() == 1 && members@[0].0@
            == verdict_member() && members@[0].1 == Some(true)),
        verdict == Verdict::DoesNotViolate <==> (members@.len() == 1 && members@[0].0@
            == verdict_member() && members@[0].1 == Some(false)),
{
    match read_evaluation(members) {
        None => Verdict::Inconclusive(InconclusiveReason::SchemaMismatch),
        Some(evaluation) => if evaluation.violates_rules {
            Verdict::Violates
        } else {
            Verdict::DoesNotViolate
        },
    }
}

/// The verdict that the content of a choice amounts to.
pub fn judge_content(text: &str) -> (verdict: Verdict)
    ensures
        verdict == verdict_of_content(text@),
{
    match parse_object_members(text) {
        None => Verdict::Inconclusive(InconclusiveReason::NotJsonObject),
        Some(members) => judge_members(&members),
    }
}

/// The verdict that the outcome of a model call amounts to. A call that
/// failed, an answer without a choice and a choice without content or with
/// empty content are inconclusive whatever else holds.
pub fn judge(outcome: &ModelOutcome) -> (verdict: Verdict)
    ensures
        verdict == verdict_of(*outcome),
        !(outcome is Content) || outcome->Content_0@.len() == 0 ==> verdict is Inconclusive,
{
    match outcome {
        ModelOutcome::CallFailed(_) => Verdict::Inconclusive(InconclusiveReason::CallFailed),
        ModelOutcome::NoChoices => Verdict::Inconclusive(InconclusiveReason::NoChoices),
        ModelOutcome::NoContent => Verdict::Inconclusive(InconclusiveReason::NoContent),
        ModelOutcome::Content(text) => if text.as_str().is_empty() {
            Verdict::Inconclusive(InconclusiveReason::NoContent)
        } else {
            judge_content(text.as_str())
        },
    }
}

impl Verdict {
    /// Whether the verdict calls for a report: only a violation does.
    pub fn calls_for_report(&self) -> (report: bool)
        ensures
            report == (*self == Verdict::Violates),
    {
        match self {
            Verdict::Violates => true,
            _ => false,
        }
    }
}

/// Whether the outcome of a model call says that the message breaks the
/// rules. It does only where the call succeeded with a choice whose content
/// is a JSON object of exactly the schema's shape with `violates_rules` true.
pub fn evaluate(outcome: &ModelOutcome) -> (violates: bool)
    ensures
        violates == (verdict_of(*outcome) == Verdict::Violates),
        violates ==> outcome is Content && outcome->Content_0@.len() > 0,
        violates ==> json_object_members(outcome->Content_0@) is Some && evaluation_of(
            json_object_members(outcome->Content_0@).unwrap(),
        ) == Some(Evaluation { violates_rules: true }),
{
    judge(outcome).calls_for_report()
}

/// Equal content makes equal requests, and equal outcomes of the call make
/// equal verdicts: nothing but the language model can make the judgement of
/// one content differ from one time to the next.
pub proof fn lemma_verdict_depends_on_answer_alone(
    first_request: ClassificationRequest,
    second_request: ClassificationRequest,
    content: Seq<char>,
    first_answer: ModelOutcome,
    second_answer: ModelOutcome,
)
    requires
        is_request_for(first_request, content),
        is_request_for(second_request, content),
        same_answer(first_answer, second_answer),
    ensures
        first_request.system_instructions@ == second_request.system_instructions@,
        first_request.user_content@ == second_request.user_content@,
        first_request.max_output_tokens == second_request.max_output_tokens,
        first_request.response_schema@ == second_request.response_schema@,
        verdict_of(first_answer) == verdict_of(second_answer),
{
}

/// Whether two model calls ended the same way, with the same content where
/// there is content. What a failed call says of its failure does not count.
pub open spec fn same_answer(first: ModelOutcome, second: ModelOutcome) -> bool {
    match (first, second) {
        (ModelOutcome::CallFailed(_), ModelOutcome::CallFailed(_)) => true,
        (ModelOutcome::NoChoices, ModelOutcome::NoChoices) => true,
        (ModelOutcome::NoContent, ModelOutcome::NoContent) => true,
        (ModelOutcome::Content(a), ModelOutcome::Content(b)) => a@ == b@,
        _ => false,
    }
}

/// A failed call, an answer without a choice, a choice without content or
/// with empty content, and content that is not a JSON object of the schema's
/// shape are all inconclusive: none of them is a violation verdict.
pub proof fn lemma_failures_never_accuse(outcome: ModelOutcome)
    requires
        outcome is CallFailed || outcome is NoChoices || outcome is NoContent || (
        outcome is Content && (outcome->Content_0@.len() == 0 || json_object_members(
            outcome->Content_0@,
        ) is None || evaluation_of(json_object_members(outcome->Content_0@).unwrap()) is None)),
    ensures
        verdict_of(outcome) is Inconclusive,
        verdict_of(outcome) != Verdict::Violates,
{
}

} // verus!
