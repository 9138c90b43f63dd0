//! The tool that sums up the metadata of a model.

use vstd::prelude::*;
use crate::content::{ContentEnvelope, ErrorKind, HuggingFaceErrorKind, ToolResponseContent};
use crate::effect::{
    exchange, fails, failure_text, get_of, is_success, no_keys, no_pairs, push_key, reading,
    reads_json, renders, sends, status_is_success, yields_text, Effect, Exchange, HttpRequest,
    Outcome, Reading, Step,
};
use crate::json::{field_text, field_value, Json, JsonDoc, JsonField, JsonView};
use crate::servers::huggingface::errors::McpHuggingFaceError;
use crate::text::{concat, strings_view};

verus! {

/// The keys of the metadata that the summary is made of.
pub open spec fn summary_keys() -> Seq<Seq<char>> {
    seq!["author"@, "tags"@, "license"@, "pipeline_tag"@, "cardData"@]
}

/// The field number `at` of a document that was read, or a missing field
/// where the document has no such field.
pub open spec fn field_at(doc: JsonDoc, at: int) -> JsonField {
    if 0 <= at < doc.fields@.len() {
        doc.fields@[at]
    } else {
        JsonField::Missing
    }
}

/// The string under a field, or the empty string where the field is no
/// string.
pub open spec fn text_or_empty(field: JsonField) -> Seq<char> {
    match field_text(field) {
        Some(text) => text,
        None => Seq::empty(),
    }
}

/// The summary of the model `model_id` whose metadata `doc` was read with
/// the keys of `summary_keys`.
pub open spec fn model_summary(model_id: Seq<char>, doc: JsonDoc) -> JsonView {
    JsonView::Object(
        seq![
            ("modelId"@, JsonView::Text(model_id)),
            ("author"@, JsonView::Text(text_or_empty(field_at(doc, 0)))),
            ("tags"@, field_value(field_at(doc, 1))),
            ("license"@, JsonView::Text(text_or_empty(field_at(doc, 2)))),
            ("pipeline"@, JsonView::Text(text_or_empty(field_at(doc, 3)))),
            ("cardData"@, field_value(field_at(doc, 4))),
        ],
    )
}

/// The field number `at` of `doc`, or a missing field.
fn nth_field(doc: &JsonDoc, at: usize) -> (field: &JsonField)
    ensures
        *field == field_at(*doc, at as int),
{
    if at < doc.fields.len() {
        &doc.fields[at]
    } else {
        &JsonField::Missing
    }
}

/// Puts the summary of the model `model_id` together.
pub fn summarize(model_id: &str, doc: &JsonDoc) -> (summary: Json)
    ensures
        summary@ == model_summary(model_id@, *doc),
{
    let summary = Json::object().with("modelId", Json::text(model_id)).with(
        "author",
        Json::Text(nth_field(doc, 0).text_or_empty()),
    ).with("tags", nth_field(doc, 1).to_json()).with(
        "license",
        Json::Text(nth_field(doc, 2).text_or_empty()),
    ).with("pipeline", Json::Text(nth_field(doc, 3).text_or_empty())).with(
        "cardData",
        nth_field(doc, 4).to_json(),
    );
    proof {
        assert(summary@->Object_0 =~= model_summary(model_id@, *doc)->Object_0);
    }
    summary
}

/// What `get_model_info_tool` does, given the answers so far.
///
/// It asks for the metadata of the model; a response whose status is no
/// success ends it with `ApiError` and the body. Then it asks for the
/// response to be read as JSON with the keys of `summary_keys`, then for the
/// summary to be written as JSON text, and ends with that text. A call or a
/// reading that fails ends it with `HttpError`, and a writing that fails
/// with `JsonParseError`.
pub open spec fn get_model_info_step(
    step: Step<McpHuggingFaceError>,
    model_id: Seq<char>,
    replies: Seq<Outcome>,
) -> bool {
    if replies.len() == 0 {
        sends(step, get_of("https://huggingface.co/api/models/"@ + model_id, Seq::empty()))
    } else {
        match replies[0] {
            Outcome::Http { status, status_line, body } => if !is_success(status) {
                fails(step, ErrorKind::HuggingFace(HuggingFaceErrorKind::ApiError), body@)
            } else if replies.len() == 1 {
                reads_json(step, body@, summary_keys())
            } else {
                match replies[1] {
                    Outcome::Json(doc) => if replies.len() == 2 {
                        renders(step, model_summary(model_id, doc))
                    } else {
                        match replies[2] {
                            Outcome::Text(text) => yields_text(step, text@),
                            other => fails(
                                step,
                                ErrorKind::HuggingFace(HuggingFaceErrorKind::JsonParseError),
                                failure_text(other),
                            ),
                        }
                    },
                    other => fails(
                        step,
                        ErrorKind::HuggingFace(HuggingFaceErrorKind::HttpError),
                        failure_text(other),
                    ),
                }
            },
            other => fails(
                step,
                ErrorKind::HuggingFace(HuggingFaceErrorKind::HttpError),
                failure_text(other),
            ),
        }
    }
}

/// Sums up the metadata of the model `model_id`: the next thing to ask
/// for, or the result, given the answers so far.
pub fn get_model_info_tool(model_id: &str, replies: &Vec<Outcome>) -> (step: Step<
    McpHuggingFaceError,
>)
    ensures
        get_model_info_step(step, model_id@, replies@),
{
    let url = concat("https://huggingface.co/api/models/", model_id);
    match exchange(HttpRequest::get(url, no_pairs()), replies, 0) {
        Exchange::Ask(effect) => Step::Perform(effect),
        Exchange::Failed(message) => Step::Done(Err(McpHuggingFaceError::HttpError(message))),
        Exchange::Reply { status, status_line, body } => {
            if !status_is_success(status) {
                return Step::Done(Err(McpHuggingFaceError::ApiError(body.clone())));
            }
            let mut keys = no_keys();
            push_key(&mut keys, "author");
            push_key(&mut keys, "tags");
            push_key(&mut keys, "license");
            push_key(&mut keys, "pipeline_tag");
            push_key(&mut keys, "cardData");
            proof {
                assert(strings_view(keys@) =~= summary_keys());
            }
            match reading(body, keys, replies, 1) {
                Reading::Ask(effect) => Step::Perform(effect),
                Reading::Failed(message) => Step::Done(
                    Err(McpHuggingFaceError::HttpError(message)),
                ),
                Reading::Read(doc) => {
                    if replies.len() == 2 {
                        return Step::Perform(Effect::RenderJson(summarize(model_id, doc)));
                    }
                    match &replies[2] {
                        Outcome::Text(text) => Step::Done(
                            Ok(ContentEnvelope::single(ToolResponseContent::text(text.clone()))),
                        ),
                        other => Step::Done(
                            Err(McpHuggingFaceError::JsonParseError(other.failure())),
                        ),
                    }
                },
            }
        },
    }
}

} // verus!
