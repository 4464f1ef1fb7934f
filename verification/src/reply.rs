//! Reading what the moderation endpoint sent back.
//!
//! The endpoint answers with a JSON document; the model's reply is the text
//! at `/choices/0/message/content`. The reply is itself meant to be a JSON
//! object with the text fields `description` and `rating`, and may come
//! wrapped in a Markdown code fence. A reply that cannot be read gives a
//! verdict all the same, never an error.

use crate::text::{
    ends_with, has_prefix, starts_with, strip_leading, strip_trailing, trim, trim_leading, trim_trailing,
    trimmed,
};
use crate::verdict::{ModerationVerdict, Rating, VerdictView, unreadable_verdict};
use vstd::prelude::*;

verus! {

/// `serde_json::Value`: a parsed JSON document. Nothing inside it is seen
/// here; what it holds is asked of it by JSON Pointer.
#[verifier::external_type_specification]
#[verifier::external_body]
pub struct ExJsonValue(serde_json::Value);

/// What `serde_json::from_str` makes of `text`: the texts of the document,
/// each under the JSON Pointer that leads to it, or the message of the error
/// with which `text` is refused.
pub uninterp spec fn json_document(text: Seq<char>) -> Result<Map<Seq<char>, Seq<char>>, Seq<char>>;

/// The texts that a JSON value holds, each under the JSON Pointer that leads
/// to it. A pointer that leads nowhere, or to a value that is no text, is no
/// key.
pub uninterp spec fn json_strings(value: serde_json::Value) -> Map<Seq<char>, Seq<char>>;

/// The text under `pointer`, if there is one.
pub open spec fn lookup(strings: Map<Seq<char>, Seq<char>>, pointer: Seq<char>) -> Option<
    Seq<char>,
> {
    if strings.contains_key(pointer) {
        Some(strings[pointer])
    } else {
        None
    }
}

/// What an optional text holds.
pub open spec fn text_of(text: Option<String>) -> Option<Seq<char>> {
    match text {
        Some(t) => Some(t@),
        None => None,
    }
}

/// Calls `serde_json::from_str` for a `serde_json::Value`. The contract
/// claims that the outcome depends on `text` alone: it is the document that
/// `json_document` names, or the text of the error that it names.
#[verifier::external_body]
fn parse_json(text: &str) -> (r: Result<serde_json::Value, String>)
    ensures
        match r {
            Ok(value) => json_document(text@) == Ok::<Map<Seq<char>, Seq<char>>, Seq<char>>(
                json_strings(value),
            ),
            Err(error) => json_document(text@) == Err::<Map<Seq<char>, Seq<char>>, Seq<char>>(
                error@,
            ),
        },
{
    match serde_json::from_str::<serde_json::Value>(text) {
        Ok(value) => Ok(value),
        Err(error) => Err(error.to_string()),
    }
}

/// Calls `serde_json::Value::pointer`. The contract claims that the text
/// found under `pointer` is the one that `json_strings` holds there, and
/// that nothing is returned where the pointer leads nowhere or to a value
/// that is no text.
#[verifier::external_body]
fn string_at(value: &serde_json::Value, pointer: &str) -> (r: Option<String>)
    ensures
        text_of(r) == lookup(json_strings(*value), pointer@),
{
    match value.pointer(pointer) {
        Some(serde_json::Value::String(text)) => Some(text.clone()),
        _ => None,
    }
}

/// A reply without its code fence and without white space around it. A
/// reply that opens with three backticks loses every leading "```json",
/// then every leading "```", then every trailing "```".
pub open spec fn cleaned_reply(reply: Seq<char>) -> Seq<char> {
    if starts_with(reply, "```"@) {
        trimmed(
            strip_trailing(strip_leading(strip_leading(reply, "```json"@), "```"@), "```"@),
        )
    } else {
        trimmed(reply)
    }
}

/// The verdict that two fields of a cleaned reply give: the one they state
/// where both are there and the rating is one of the five, else the one
/// that quotes the reply.
pub open spec fn verdict_of_fields(
    cleaned: Seq<char>,
    description: Option<Seq<char>>,
    rating: Option<Seq<char>>,
) -> VerdictView {
    match (description, rating) {
        (Some(d), Some(label)) => match Rating::from_label(label) {
            Some(r) => VerdictView { description: d, rating: r },
            None => unreadable_verdict(cleaned),
        },
        _ => unreadable_verdict(cleaned),
    }
}

/// The verdict that a cleaned reply gives.
pub open spec fn verdict_of_cleaned(cleaned: Seq<char>) -> VerdictView {
    match json_document(cleaned) {
        Ok(strings) => verdict_of_fields(
            cleaned,
            lookup(strings, "/description"@),
            lookup(strings, "/rating"@),
        ),
        Err(_) => unreadable_verdict(cleaned),
    }
}

/// The verdict that a reply gives.
pub open spec fn reply_verdict(reply: Seq<char>) -> VerdictView {
    verdict_of_cleaned(cleaned_reply(reply))
}

/// The reply that a response body carries: the text at
/// `/choices/0/message/content`, or the empty text where there is none.
pub open spec fn reply_in(strings: Map<Seq<char>, Seq<char>>) -> Seq<char> {
    match lookup(strings, "/choices/0/message/content"@) {
        Some(reply) => reply,
        None => Seq::empty(),
    }
}

/// What one attempt to have a frame moderated came to.
#[derive(Debug)]
pub enum AttemptOutcome {
    /// The endpoint answered, and this is the verdict.
    Answered(ModerationVerdict),
    /// The attempt failed before a reply could be read, with this error.
    Failed(String),
}

/// What an [`AttemptOutcome`] holds.
pub enum AttemptOutcomeView {
    Answered(VerdictView),
    Failed(Seq<char>),
}

impl View for AttemptOutcome {
    type V = AttemptOutcomeView;

    open spec fn view(&self) -> AttemptOutcomeView {
        match self {
            AttemptOutcome::Answered(verdict) => AttemptOutcomeView::Answered(verdict@),
            AttemptOutcome::Failed(error) => AttemptOutcomeView::Failed(error@),
        }
    }
}

/// The outcome that a response body gives: a failure where the body is no
/// JSON document, else the verdict of the reply in it.
pub open spec fn response_outcome(body: Seq<char>) -> AttemptOutcomeView {
    match json_document(body) {
        Ok(strings) => AttemptOutcomeView::Answered(reply_verdict(reply_in(strings))),
        Err(error) => AttemptOutcomeView::Failed(error),
    }
}

/// A reply inside a fence tagged `json` reads as the same reply without the
/// fence, as long as the reply itself neither begins nor ends with a
/// backtick.
pub proof fn fence_changes_nothing(reply: Seq<char>)
    requires
        reply.len() == 0 || (reply.first() != '`' && reply.last() != '`'),
    ensures
        cleaned_reply("```json"@ + reply + "```"@) == cleaned_reply(reply),
        reply_verdict("```json"@ + reply + "```"@) == reply_verdict(reply),
{
    reveal_strlit("```json");
    reveal_strlit("```");
    let open = "```json"@;
    let tick = "```"@;
    let fenced = open + reply + tick;
    let inner = reply + tick;
    assert(open.len() == 7 && tick.len() == 3);
    assert(open[0] == '`' && tick[0] == '`' && tick[2] == '`');
    assert(fenced.subrange(0, 3) =~= tick);
    assert(fenced.subrange(0, 7) =~= open);
    assert(fenced.subrange(7, fenced.len() as int) =~= inner);
    assert(!starts_with(inner, open)) by {
        if reply.len() > 0 && inner.len() >= 7 {
            assert(inner.subrange(0, 7)[0] == reply[0]);
        }
    }
    assert(strip_leading(inner, open) == inner);
    assert(strip_leading(fenced, open) == inner);
    if reply.len() == 0 {
        let nothing = Seq::<char>::empty();
        assert(inner =~= tick);
        assert(inner.subrange(0, 3) =~= tick);
        assert(inner.subrange(3, 3) =~= nothing);
        assert(strip_leading(nothing, tick) == nothing);
        assert(strip_leading(inner, tick) == nothing);
        assert(strip_trailing(nothing, tick) == nothing);
        assert(reply =~= nothing);
        assert(!starts_with(reply, tick));
    } else {
        assert(!starts_with(inner, tick)) by {
            assert(inner.subrange(0, 3)[0] == reply[0]);
        }
        assert(strip_leading(inner, tick) == inner);
        assert(inner.subrange(inner.len() - 3, inner.len() as int) =~= tick);
        assert(inner.subrange(0, inner.len() - 3) =~= reply);
        assert(!ends_with(reply, tick)) by {
            if reply.len() >= 3 {
                assert(reply.subrange(reply.len() - 3, reply.len() as int)[2] == reply.last());
            }
        }
        assert(strip_trailing(reply, tick) == reply);
        assert(strip_trailing(inner, tick) == reply);
        assert(!starts_with(reply, tick)) by {
            if reply.len() >= 3 {
                assert(reply.subrange(0, 3)[0] == reply[0]);
            }
        }
    }
}

/// A reply that is no JSON document is rated `Inappropriate`, and its
/// description is not empty and ends with the reply as it was read.
pub proof fn unreadable_reply_is_quoted(reply: Seq<char>)
    ensures
        json_document(cleaned_reply(reply)) is Err ==> {
            &&& reply_verdict(reply).rating == Rating::Inappropriate
            &&& reply_verdict(reply).description.len() > 0
            &&& ends_with(reply_verdict(reply).description, cleaned_reply(reply))
        },
{
    reveal_strlit("Parsing error in response: ");
    let cleaned = cleaned_reply(reply);
    let description = unreadable_verdict(cleaned).description;
    assert(description.subrange(description.len() - cleaned.len(), description.len() as int)
        =~= cleaned);
}

/// Takes the code fence and the surrounding white space from a reply.
pub fn clean_reply(reply: &str) -> (r: String)
    ensures
        r@ == cleaned_reply(reply@),
{
    if has_prefix(reply, "```") {
        let opened: &str = trim_leading(trim_leading(reply, "```json"), "```");
        String::from_str(trim(trim_trailing(opened, "```")))
    } else {
        String::from_str(trim(reply))
    }
}

/// The verdict that the fields `description` and `rating` of a cleaned reply
/// give.
pub fn verdict_from_fields(
    cleaned: &str,
    description: Option<String>,
    rating: Option<String>,
) -> (r: ModerationVerdict)
    ensures
        r@ == verdict_of_fields(cleaned@, text_of(description), text_of(rating)),
{
    match (description, rating) {
        (Some(d), Some(label)) => match Rating::parse(label.as_str()) {
            Some(r) => ModerationVerdict { description: d, rating: r },
            None => ModerationVerdict::unreadable(cleaned),
        },
        _ => ModerationVerdict::unreadable(cleaned),
    }
}

/// Reads the verdict from a reply of the model.
pub fn read_verdict(reply: &str) -> (r: ModerationVerdict)
    ensures
        r@ == reply_verdict(reply@),
{
    let cleaned: String = clean_reply(reply);
    match parse_json(cleaned.as_str()) {
        Ok(value) => {
            let description: Option<String> = string_at(&value, "/description");
            let rating: Option<String> = string_at(&value, "/rating");
            verdict_from_fields(cleaned.as_str(), description, rating)
        },
        Err(_) => ModerationVerdict::unreadable(cleaned.as_str()),
    }
}

/// Reads the body of a response of the endpoint.
pub fn read_response(body: &str) -> (r: AttemptOutcome)
    ensures
        r@ == response_outcome(body@),
{
    match parse_json(body) {
        Ok(value) => {
            proof {
                reveal_strlit("");
                assert(""@ =~= Seq::<char>::empty());
            }
            let verdict: ModerationVerdict = match string_at(
                &value,
                "/choices/0/message/content",
            ) {
                Some(reply) => read_verdict(reply.as_str()),
                None => read_verdict(""),
            };
            AttemptOutcome::Answered(verdict)
        },
        Err(error) => AttemptOutcome::Failed(error),
    }
}

} // verus!
