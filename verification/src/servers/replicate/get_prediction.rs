//! The tool that fetches a prediction and the image that it produced.

use vstd::prelude::*;
use crate::content::{
    ContentEnvelope, ContentView, ErrorKind, ReplicateErrorKind, ToolResponseContent,
};
use crate::effect::{
    fails, failure_text, fetches, find_pair, get_of, is_success, no_keys, no_pairs, pair_value,
    push_key, push_pair, reads_json, sends, status_is_success, yields, Effect, HttpRequest,
    Outcome, Pair, Step,
};
use crate::encoding::{base64_encode, base64_standard, parsed_url_path, url_path};
use crate::json::{JsonDoc, JsonField, JsonItem};
use crate::servers::replicate::errors::McpReplicateError;
use crate::text::{after_last, concat, from_chars, same_text, tail_after_last, to_chars};

verus! {

/// The MIME type that goes with the file extension `extension`.
pub open spec fn mime_for_extension(extension: Seq<char>) -> Seq<char> {
    if extension == "webp"@ {
        "image/webp"@
    } else if extension == "png"@ {
        "image/png"@
    } else if extension == "jpg"@ || extension == "jpeg"@ {
        "image/jpeg"@
    } else if extension == "gif"@ {
        "image/gif"@
    } else {
        "application/octet-stream"@
    }
}

/// The MIME type of what the URL path `path` leads to, going by what
/// follows its last dot.
pub open spec fn mime_type_of_path(path: Seq<char>) -> Seq<char> {
    mime_for_extension(after_last(path, '.'))
}

/// The MIME type of what `url` leads to: that of its path, or the type of
/// plain bytes where it is no URL.
pub open spec fn mime_type_of(url: Seq<char>) -> Seq<char> {
    match parsed_url_path(url) {
        Ok(path) => mime_type_of_path(path),
        Err(_) => "application/octet-stream"@,
    }
}

/// The MIME type of what the URL path `path` leads to.
pub fn mime_type_for_path(path: &str) -> (mime_type: String)
    ensures
        mime_type@ == mime_type_of_path(path@),
{
    let chars = to_chars(path);
    let extension = from_chars(&tail_after_last(&chars, '.'));
    let name = if same_text(extension.as_str(), "webp") {
        "image/webp"
    } else if same_text(extension.as_str(), "png") {
        "image/png"
    } else if same_text(extension.as_str(), "jpg") || same_text(extension.as_str(), "jpeg") {
        "image/jpeg"
    } else if same_text(extension.as_str(), "gif") {
        "image/gif"
    } else {
        "application/octet-stream"
    };
    String::from_str(name)
}

/// The MIME type of what `url` leads to.
pub fn mime_type_for_url(url: &str) -> (mime_type: String)
    ensures
        mime_type@ == mime_type_of(url@),
{
    match url_path(url) {
        Ok(path) => mime_type_for_path(path.as_str()),
        Err(_) => String::from_str("application/octet-stream"),
    }
}

/// The URL of the image in a prediction, of which the field `output` was
/// read: the field itself where it is a string, and its first item where it
/// is an array that begins with a string.
pub open spec fn image_url_of(doc: JsonDoc) -> Option<Seq<char>> {
    if doc.fields@.len() == 0 {
        None
    } else {
        match doc.fields@[0] {
            JsonField::Text { text } => Some(text@),
            JsonField::List { items, rendered } => if items@.len() > 0 {
                match items@[0] {
                    JsonItem::Text(text) => Some(text@),
                    JsonItem::Other => None,
                }
            } else {
                None
            },
            _ => None,
        }
    }
}

/// The URL of the image in a prediction of which the field `output` was
/// read, if it holds one.
pub fn find_image_url(doc: &JsonDoc) -> (url: Option<String>)
    ensures
        match url {
            Some(text) => image_url_of(*doc) == Some(text@),
            None => image_url_of(*doc) is None,
        },
{
    if doc.fields.len() == 0 {
        return None;
    }
    match &doc.fields[0] {
        JsonField::Text { text } => Some(text.clone()),
        JsonField::List { items, rendered } => {
            if items.len() > 0 {
                match &items[0] {
                    JsonItem::Text(text) => Some(text.clone()),
                    JsonItem::Other => None,
                }
            } else {
                None
            }
        },
        _ => None,
    }
}

/// What `get_prediction_tool` does, given the API token that the
/// environment holds, if any, and the answers so far.
///
/// Without a token it fails. It asks for the prediction first, then for
/// the response to be read as JSON with its field `output`, then for the
/// bytes of the image that the field names. It ends with the image in
/// base64 and the prediction as JSON text. A call that fails ends it with
/// `HttpError`, and a prediction without an image with `InvalidResponse`. A
/// response whose status is no success ends it with `ContentParseError`:
/// with the body where the prediction was asked for, and with the status
/// where the image was.
pub open spec fn get_prediction_step(
    step: Step<McpReplicateError>,
    token: Option<Seq<char>>,
    prediction_id: Seq<char>,
    replies: Seq<Outcome>,
) -> bool {
    match token {
        None => fails(step, ErrorKind::Replicate(ReplicateErrorKind::MissingToken), Seq::empty()),
        Some(token) => if replies.len() == 0 {
            sends(
                step,
                get_of(
                    "https://api.replicate.com/v1/predictions/"@ + prediction_id,
                    seq![("authorization"@, "Token "@ + token)],
                ),
            )
        } else {
            match replies[0] {
                Outcome::Http { status, status_line, body } => if !is_success(status) {
                    fails(
                        step,
                        ErrorKind::Replicate(ReplicateErrorKind::ContentParseError),
                        "API error: "@ + body@,
                    )
                } else if replies.len() == 1 {
                    reads_json(step, body@, seq!["output"@])
                } else {
                    match replies[1] {
                        Outcome::Json(doc) => match image_url_of(doc) {
                            None => fails(
                                step,
                                ErrorKind::Replicate(ReplicateErrorKind::InvalidResponse),
                                "No image URL found"@,
                            ),
                            Some(url) => if replies.len() == 2 {
                                fetches(step, get_of(url, Seq::empty()))
                            } else {
                                match replies[2] {
                                    Outcome::HttpBytes {
                                        status,
                                        status_line,
                                        body,
                                    } => if is_success(status) {
                                        yields(
                                            step,
                                            seq![
                                                ContentView::Image {
                                                    data: base64_standard(body@),
                                                    mime_type: mime_type_of(url),
                                                },
                                                ContentView::Text { text: doc.rendered@ },
                                            ],
                                        )
                                    } else {
                                        fails(
                                            step,
                                            ErrorKind::Replicate(
                                                ReplicateErrorKind::ContentParseError,
                                            ),
                                            "Failed to download image: "@ + status_line@,
                                        )
                                    },
                                    other => fails(
                                        step,
                                        ErrorKind::Replicate(ReplicateErrorKind::HttpError),
                                        failure_text(other),
                                    ),
                                }
                            },
                        },
                        other => fails(
                            step,
                            ErrorKind::Replicate(ReplicateErrorKind::HttpError),
                            failure_text(other),
                        ),
                    }
                },
                other => fails(
                    step,
                    ErrorKind::Replicate(ReplicateErrorKind::HttpError),
                    failure_text(other),
                ),
            }
        },
    }
}

/// Checks the status of a prediction and retrieves its output: the next
/// thing to ask for, or the result, given the answers so far.
pub fn get_prediction_tool(env: &Vec<Pair>, prediction_id: &str, replies: &Vec<Outcome>) -> (step:
    Step<McpReplicateError>)
    ensures
        get_prediction_step(
            step,
            pair_value(env@, "REPLICATE_API_TOKEN"@),
            prediction_id@,
            replies@,
        ),
{
    let token = match find_pair(env, "REPLICATE_API_TOKEN") {
        Some(token) => token,
        None => {
            return Step::Done(Err(McpReplicateError::MissingToken));
        },
    };
    if replies.len() == 0 {
        let url = concat("https://api.replicate.com/v1/predictions/", prediction_id);
        let mut headers = no_pairs();
        push_pair(&mut headers, "authorization", concat("Token ", token.as_str()).as_str());
        proof {
            assert(crate::effect::pairs_view(headers@) =~= seq![
                ("authorization"@, "Token "@ + token@),
            ]);
        }
        return Step::Perform(Effect::Http(HttpRequest::get(url, headers)));
    }
    let body = match &replies[0] {
        Outcome::Http { status, status_line, body } => {
            if !status_is_success(*status) {
                return Step::Done(
                    Err(McpReplicateError::ContentParseError(concat("API error: ", body.as_str()))),
                );
            }
            body
        },
        other => {
            return Step::Done(Err(McpReplicateError::HttpError(other.failure())));
        },
    };
    if replies.len() == 1 {
        let mut keys = no_keys();
        push_key(&mut keys, "output");
        proof {
            assert(crate::text::strings_view(keys@) =~= seq!["output"@]);
        }
        return Step::Perform(Effect::ReadJson { text: body.clone(), keys });
    }
    let doc = match &replies[1] {
        Outcome::Json(doc) => doc,
        other => {
            return Step::Done(Err(McpReplicateError::HttpError(other.failure())));
        },
    };
    let image_url = match find_image_url(doc) {
        Some(url) => url,
        None => {
            return Step::Done(
                Err(McpReplicateError::InvalidResponse(String::from_str("No image URL found"))),
            );
        },
    };
    if replies.len() == 2 {
        return Step::Perform(Effect::HttpBytes(HttpRequest::get(image_url, no_pairs())));
    }
    match &replies[2] {
        Outcome::HttpBytes { status, status_line, body } => {
            if !status_is_success(*status) {
                return Step::Done(
                    Err(
                        McpReplicateError::ContentParseError(
                            concat("Failed to download image: ", status_line.as_str()),
                        ),
                    ),
                );
            }
            let mime_type = mime_type_for_url(image_url.as_str());
            let image = ToolResponseContent::image(base64_encode(body), mime_type);
            let text = ToolResponseContent::text(doc.rendered.clone());
            let envelope = ContentEnvelope::single(image).and(text);
            proof {
                assert(envelope@ =~= seq![image@, text@]);
            }
            Step::Done(Ok(envelope))
        },
        other => Step::Done(Err(McpReplicateError::HttpError(other.failure()))),
    }
}

} // verus!
