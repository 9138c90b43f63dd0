//! The tool that lists the images that the README of a model shows.

use vstd::prelude::*;
use crate::content::{ContentEnvelope, ErrorKind, HuggingFaceErrorKind, ToolResponseContent};
use crate::effect::{
    exchange, fails, failure_text, get_of, is_success, no_pairs, sends, status_is_success,
    yields_text, Exchange, HttpRequest, Outcome, Step,
};
use crate::encoding::{json_of_strings, write_json_strings};
use crate::servers::huggingface::errors::McpHuggingFaceError;
use crate::text::{
    begins_with, concat, find_from, first_occurrence, from_chars, lemma_first_occurrence,
    same_text, slice_of, starts_with, strings_view, to_chars,
};

verus! {

/// A line without the carriage return at its end, if it has one.
pub open spec fn without_carriage_return(line: Seq<char>) -> Seq<char> {
    if line.len() > 0 && line.last() == '\r' {
        line.drop_last()
    } else {
        line
    }
}

/// The lines of `text` from the place `from` on. A line ends with a line
/// feed, or with a carriage return and a line feed; neither belongs to the
/// line. What follows the last line feed is a line too, unless it is empty.
pub open spec fn lines_from(text: Seq<char>, from: int) -> Seq<Seq<char>>
    decreases text.len() - from,
    via lines_from_decreases
{
    if from < 0 || from >= text.len() {
        Seq::empty()
    } else {
        match first_occurrence(text, "\n"@, from) {
            Some(end) => seq![without_carriage_return(text.subrange(from, end))] + lines_from(
                text,
                end + 1,
            ),
            None => seq![text.subrange(from, text.len() as int)],
        }
    }
}

#[via_fn]
proof fn lines_from_decreases(text: Seq<char>, from: int) {
    if 0 <= from < text.len() {
        lemma_first_occurrence(text, "\n"@, from);
        reveal_strlit("\n");
    }
}

/// The target of the first image that `line` shows in Markdown: what
/// stands between the first `](` that follows the first `![`, and the first
/// `)` behind that.
pub open spec fn image_target(line: Seq<char>) -> Option<Seq<char>> {
    match first_occurrence(line, "!["@, 0) {
        None => None,
        Some(start) => match first_occurrence(line, "]("@, start) {
            None => None,
            Some(middle) => match first_occurrence(line, ")"@, middle + 2) {
                None => None,
                Some(end) => Some(line.subrange(middle + 2, end)),
            },
        },
    }
}

/// The URL of an image with the target `target` in the README of the model
/// `model_id`: the target itself where it begins with `http`, and else the
/// file of that name in the model's repository.
pub open spec fn image_url(target: Seq<char>, model_id: Seq<char>) -> Seq<char> {
    if begins_with(target, "http"@) {
        target
    } else {
        "https://huggingface.co/"@ + model_id + "/resolve/main/"@ + target
    }
}

/// The URLs of the images that `lines` show, one for each line that shows
/// an image, in the order of the lines.
pub open spec fn image_urls(lines: Seq<Seq<char>>, model_id: Seq<char>) -> Seq<Seq<char>>
    decreases lines.len(),
{
    if lines.len() == 0 {
        Seq::empty()
    } else {
        let before = image_urls(lines.drop_last(), model_id);
        match image_target(lines.last()) {
            Some(target) => before.push(image_url(target, model_id)),
            None => before,
        }
    }
}

/// The URLs of the images that the README `readme` of the model `model_id`
/// shows.
pub open spec fn sample_images(readme: Seq<char>, model_id: Seq<char>) -> Seq<Seq<char>> {
    image_urls(lines_from(readme, 0), model_id)
}

/// The values of a sequence of lines.
pub open spec fn lines_view(lines: Seq<Vec<char>>) -> Seq<Seq<char>> {
    lines.map_values(|line: Vec<char>| line@)
}

/// The lines of `text`.
pub fn split_lines(text: &Vec<char>) -> (lines: Vec<Vec<char>>)
    ensures
        lines_view(lines@) == lines_from(text@, 0),
{
    let line_feed = to_chars("\n");
    let mut lines: Vec<Vec<char>> = Vec::new();
    let mut from: usize = 0;
    proof {
        assert(lines_view(lines@) =~= Seq::<Seq<char>>::empty());
    }
    while from < text.len()
        invariant
            from <= text.len(),
            line_feed@ == "\n"@,
            lines_from(text@, 0) == lines_view(lines@) + lines_from(text@, from as int),
        decreases text.len() - from,
    {
        let ghost before = lines_view(lines@);
        proof {
            lemma_first_occurrence(text@, line_feed@, from as int);
            reveal_strlit("\n");
        }
        match find_from(text, &line_feed, from) {
            Some(end) => {
                let mut stop: usize = end;
                if stop > from && text[stop - 1] == '\r' {
                    stop -= 1;
                }
                let line = slice_of(text, from, stop);
                proof {
                    let whole = text@.subrange(from as int, end as int);
                    assert(line@ =~= without_carriage_return(whole));
                    assert(lines_from(text@, from as int) == seq![line@] + lines_from(
                        text@,
                        end + 1,
                    ));
                }
                lines.push(line);
                proof {
                    assert(lines_view(lines@) =~= before.push(line@));
                    assert(before.push(line@) + lines_from(text@, end + 1) =~= before + (seq![
                        line@,
                    ] + lines_from(text@, end + 1)));
                }
                from = end + 1;
            },
            None => {
                let line = slice_of(text, from, text.len());
                proof {
                    assert(lines_from(text@, from as int) == seq![line@]);
                    assert(lines_from(text@, text@.len() as int) == Seq::<Seq<char>>::empty());
                }
                lines.push(line);
                proof {
                    assert(lines_view(lines@) =~= before.push(line@));
                    assert(before.push(line@) + Seq::<Seq<char>>::empty() =~= before + seq![line@]);
                }
                from = text.len();
            },
        }
    }
    proof {
        assert(lines_view(lines@) + Seq::<Seq<char>>::empty() =~= lines_view(lines@));
    }
    lines
}

/// The target of the first image that `line` shows, if it shows one.
pub fn find_image_target(line: &Vec<char>) -> (target: Option<Vec<char>>)
    ensures
        match target {
            Some(found) => image_target(line@) == Some(found@),
            None => image_target(line@) is None,
        },
{
    let opening = to_chars("![");
    let joint = to_chars("](");
    let closing = to_chars(")");
    let start = match find_from(line, &opening, 0) {
        Some(start) => start,
        None => {
            return None;
        },
    };
    let middle = match find_from(line, &joint, start) {
        Some(middle) => middle,
        None => {
            return None;
        },
    };
    proof {
        lemma_first_occurrence(line@, joint@, start as int);
        reveal_strlit("](");
        assert(joint@.len() == 2);
        assert(line.len() == line@.len());
        lemma_first_occurrence(line@, closing@, middle + 2);
    }
    match find_from(line, &closing, middle + 2) {
        Some(end) => Some(slice_of(line, middle + 2, end)),
        None => None,
    }
}

/// The URL of the image with the target `target` in the README of the
/// model `model_id`.
pub fn image_url_for(target: &Vec<char>, model_id: &str) -> (url: String)
    ensures
        url@ == image_url(target@, model_id@),
{
    let scheme = to_chars("http");
    let written = from_chars(target);
    if starts_with(target, &scheme) {
        written
    } else {
        let mut url = concat("https://huggingface.co/", model_id);
        url.append("/resolve/main/");
        url.append(written.as_str());
        url
    }
}

/// The URLs of the images that the README `readme` of the model `model_id`
/// shows.
pub fn find_sample_images(readme: &str, model_id: &str) -> (urls: Vec<String>)
    ensures
        strings_view(urls@) == sample_images(readme@, model_id@),
{
    let text = to_chars(readme);
    let lines = split_lines(&text);
    let mut urls: Vec<String> = Vec::new();
    let mut i: usize = 0;
    proof {
        assert(strings_view(urls@) =~= Seq::<Seq<char>>::empty());
        assert(lines_view(lines@).take(0) =~= Seq::<Seq<char>>::empty());
    }
    while i < lines.len()
        invariant
            i <= lines.len(),
            strings_view(urls@) == image_urls(lines_view(lines@).take(i as int), model_id@),
        decreases lines.len() - i,
    {
        let ghost before = strings_view(urls@);
        proof {
            let upto = lines_view(lines@).take(i + 1);
            assert(upto.drop_last() =~= lines_view(lines@).take(i as int));
            assert(upto.last() == lines@[i as int]@);
        }
        match find_image_target(&lines[i]) {
            Some(target) => {
                let url = image_url_for(&target, model_id);
                urls.push(url);
                proof {
                    assert(strings_view(urls@) =~= before.push(url@));
                }
            },
            None => {},
        }
        i += 1;
    }
    proof {
        assert(lines_view(lines@).take(lines@.len() as int) =~= lines_view(lines@));
    }
    urls
}

/// What `get_model_sample_images_tool` does, given the answers so far.
///
/// It asks for the README of the model. A call that fails ends it with
/// `HttpError`. A response that only says that the login is wrong ends it
/// with `ApiError`, and so does any other response whose status is no
/// success, with the body. Else it ends with the URLs of the images that
/// the README shows, as a JSON array, or with `JsonParseError` where they
/// cannot be written as JSON.
pub open spec fn get_model_sample_images_step(
    step: Step<McpHuggingFaceError>,
    model_id: Seq<char>,
    replies: Seq<Outcome>,
) -> bool {
    if replies.len() == 0 {
        sends(
            step,
            get_of("https://huggingface.co/"@ + model_id + "/raw/main/README.md"@, Seq::empty()),
        )
    } else {
        match replies[0] {
            Outcome::Http { status, status_line, body } => if body@
                == "Invalid username or password."@ {
                fails(
                    step,
                    ErrorKind::HuggingFace(HuggingFaceErrorKind::ApiError),
                    "Invalid username or password"@,
                )
            } else if !is_success(status) {
                fails(step, ErrorKind::HuggingFace(HuggingFaceErrorKind::ApiError), body@)
            } else {
                match json_of_strings(sample_images(body@, model_id)) {
                    Ok(text) => yields_text(step, text),
                    Err(message) => fails(
                        step,
                        ErrorKind::HuggingFace(HuggingFaceErrorKind::JsonParseError),
                        message,
                    ),
                }
            },
            other => fails(
                step,
                ErrorKind::HuggingFace(HuggingFaceErrorKind::HttpError),
                failure_text(other),
            ),
        }
    }
}

/// Lists the images that the README of the model `model_id` shows: the
/// next thing to ask for, or the result, given the answers so far.
pub fn get_model_sample_images_tool(model_id: &str, replies: &Vec<Outcome>) -> (step: Step<
    McpHuggingFaceError,
>)
    ensures
        get_model_sample_images_step(step, model_id@, replies@),
{
    let mut url = concat("https://huggingface.co/", model_id);
    url.append("/raw/main/README.md");
    match exchange(HttpRequest::get(url, no_pairs()), replies, 0) {
        Exchange::Ask(effect) => Step::Perform(effect),
        Exchange::Failed(message) => Step::Done(Err(McpHuggingFaceError::HttpError(message))),
        Exchange::Reply { status, status_line, body } => {
            if same_text(body.as_str(), "Invalid username or password.") {
                return Step::Done(
                    Err(
                        McpHuggingFaceError::ApiError(
                            String::from_str("Invalid username or password"),
                        ),
                    ),
                );
            }
            if !status_is_success(status) {
                return Step::Done(Err(McpHuggingFaceError::ApiError(body.clone())));
            }
            let urls = find_sample_images(body.as_str(), model_id);
            match write_json_strings(&urls) {
                Ok(text) => Step::Done(
                    Ok(ContentEnvelope::single(ToolResponseContent::text(text))),
                ),
                Err(message) => Step::Done(Err(McpHuggingFaceError::JsonParseError(message))),
            }
        },
    }
}

} // verus!
