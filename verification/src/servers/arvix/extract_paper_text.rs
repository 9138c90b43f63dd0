//! The tool that extracts the text of a paper from its PDF.

use vstd::prelude::*;
use crate::content::{ArxivErrorKind, ContentEnvelope, ErrorKind, ToolResponseContent};
use crate::effect::{
    copy_bytes, fails, failure_text, fetches, get_of, is_success, no_pairs, status_is_success,
    yields_text, Effect, HttpRequest, Outcome, Step,
};
use crate::encoding::{parsed_url_path, url_path};
use crate::servers::arvix::errors::McpArvixError;
use crate::text::{
    after_last, begins_with, concat, contains_text, from_chars, holds, starts_with,
    tail_after_last, to_chars,
};

verus! {

/// The directory that holds a PDF while its text is extracted.
pub open spec fn work_dir() -> Seq<char> {
    "temp"@
}

/// The ID of the paper that the URL path `path` leads to: its last
/// segment. A path that does not begin with a slash leads to none.
pub open spec fn paper_id_in_path(path: Seq<char>) -> Result<Seq<char>, Seq<char>> {
    if begins_with(path, "/"@) {
        Ok(after_last(path, '/'))
    } else {
        Err("Invalid URL"@)
    }
}

/// The ID of the paper that `paper_url` names, or the detail of the
/// failure. What does not hold `arxiv.org` is taken for the ID itself; what
/// holds it must be a URL, and the last segment of its path is the ID.
pub open spec fn paper_id_of(paper_url: Seq<char>) -> Result<Seq<char>, Seq<char>> {
    if holds(paper_url, "arxiv.org"@) {
        match parsed_url_path(paper_url) {
            Ok(path) => paper_id_in_path(path),
            Err(message) => Err(message),
        }
    } else {
        Ok(paper_url)
    }
}

/// The ID of the paper that the URL path `path` leads to.
pub fn paper_id_from_path(path: &str) -> (id: Result<String, McpArvixError>)
    ensures
        match id {
            Ok(found) => paper_id_in_path(path@) == Ok::<Seq<char>, Seq<char>>(found@),
            Err(error) => error@.kind == ErrorKind::Arxiv(ArxivErrorKind::ApiError)
                && paper_id_in_path(path@) == Err::<Seq<char>, Seq<char>>(error@.detail),
        },
{
    let chars = to_chars(path);
    let slash = to_chars("/");
    if starts_with(&chars, &slash) {
        Ok(from_chars(&tail_after_last(&chars, '/')))
    } else {
        Err(McpArvixError::ApiError(String::from_str("Invalid URL")))
    }
}

/// The ID of the paper that `paper_url` names.
pub fn resolve_paper_id(paper_url: &str) -> (id: Result<String, McpArvixError>)
    ensures
        match id {
            Ok(found) => paper_id_of(paper_url@) == Ok::<Seq<char>, Seq<char>>(found@),
            Err(error) => error@.kind == ErrorKind::Arxiv(ArxivErrorKind::ApiError) && paper_id_of(
                paper_url@,
            ) == Err::<Seq<char>, Seq<char>>(error@.detail),
        },
{
    if contains_text(paper_url, "arxiv.org") {
        match url_path(paper_url) {
            Ok(path) => paper_id_from_path(path.as_str()),
            Err(message) => Err(McpArvixError::ApiError(message)),
        }
    } else {
        Ok(String::from_str(paper_url))
    }
}

/// The step asks for the working directory to be there.
pub open spec fn asks_for_dir(step: Step<McpArvixError>) -> bool {
    step matches Step::Perform(Effect::EnsureDir { path }) && path@ == work_dir()
}

/// The step asks for `bytes` to be written to the file `name` in the
/// working directory.
pub open spec fn writes_file(step: Step<McpArvixError>, name: Seq<char>, bytes: Seq<u8>) -> bool {
    step matches Step::Perform(Effect::WriteFile { dir, name: file, bytes: written }) && dir@
        == work_dir() && file@ == name && written@ == bytes
}

/// The step asks for the text of the PDF file `name` in the working
/// directory.
pub open spec fn extracts_text(step: Step<McpArvixError>, name: Seq<char>) -> bool {
    step matches Step::Perform(Effect::ExtractPdfText { dir, name: file }) && dir@ == work_dir()
        && file@ == name
}

/// The step asks for the file `name` in the working directory to be
/// removed.
pub open spec fn removes_file(step: Step<McpArvixError>, name: Seq<char>) -> bool {
    step matches Step::Perform(Effect::RemoveFile { dir, name: file }) && dir@ == work_dir()
        && file@ == name
}

/// The step ends the tool with `ApiError` and the message of `outcome`.
pub open spec fn fails_on(step: Step<McpArvixError>, outcome: Outcome) -> bool {
    fails(step, ErrorKind::Arxiv(ArxivErrorKind::ApiError), failure_text(outcome))
}

/// What `extract_paper_text_tool` does once the ID of the paper is known,
/// given the answers so far.
///
/// It asks for the working directory, then for the PDF of the paper, then
/// for the PDF to be written to a file named after the paper, then for the
/// text of that file, then for the file to be removed, and ends with the
/// text. A download that fails ends it with `HttpError`; a response whose
/// status is no success, and any other step that fails, with `ApiError`.
pub open spec fn extraction_step(
    step: Step<McpArvixError>,
    paper_id: Seq<char>,
    replies: Seq<Outcome>,
) -> bool {
    let name = paper_id + ".pdf"@;
    if replies.len() == 0 {
        asks_for_dir(step)
    } else if !(replies[0] is Nothing) {
        fails_on(step, replies[0])
    } else if replies.len() == 1 {
        fetches(step, get_of("https://arxiv.org/pdf/"@ + paper_id + ".pdf"@, Seq::empty()))
    } else {
        match replies[1] {
            Outcome::HttpBytes { status, status_line, body } => if !is_success(status) {
                fails(
                    step,
                    ErrorKind::Arxiv(ArxivErrorKind::ApiError),
                    "Failed to download PDF: "@ + status_line@,
                )
            } else if replies.len() == 2 {
                writes_file(step, name, body@)
            } else if !(replies[2] is Nothing) {
                fails_on(step, replies[2])
            } else if replies.len() == 3 {
                extracts_text(step, name)
            } else {
                match replies[3] {
                    Outcome::Text(text) => if replies.len() == 4 {
                        removes_file(step, name)
                    } else if !(replies[4] is Nothing) {
                        fails_on(step, replies[4])
                    } else {
                        yields_text(step, text@)
                    },
                    other => fails_on(step, other),
                }
            },
            other => fails(step, ErrorKind::Arxiv(ArxivErrorKind::HttpError), failure_text(other)),
        }
    }
}

/// What `extract_paper_text_tool` does, given the answers so far: it fails
/// with `ApiError` where `paper_url` names no paper, and else goes through
/// the extraction.
pub open spec fn extract_paper_text_step(
    step: Step<McpArvixError>,
    paper_url: Seq<char>,
    replies: Seq<Outcome>,
) -> bool {
    match paper_id_of(paper_url) {
        Err(detail) => fails(step, ErrorKind::Arxiv(ArxivErrorKind::ApiError), detail),
        Ok(paper_id) => extraction_step(step, paper_id, replies),
    }
}

/// Goes through the extraction of the text of the paper `paper_id`: the
/// next thing to ask for, or the result, given the answers so far.
pub fn extract_text_of(paper_id: &str, replies: &Vec<Outcome>) -> (step: Step<McpArvixError>)
    ensures
        extraction_step(step, paper_id@, replies@),
{
    let name = concat(paper_id, ".pdf");
    if replies.len() == 0 {
        return Step::Perform(Effect::EnsureDir { path: String::from_str("temp") });
    }
    match &replies[0] {
        Outcome::Nothing => {},
        other => {
            return Step::Done(Err(McpArvixError::ApiError(other.failure())));
        },
    }
    if replies.len() == 1 {
        let mut url = concat("https://arxiv.org/pdf/", paper_id);
        url.append(".pdf");
        return Step::Perform(Effect::HttpBytes(HttpRequest::get(url, no_pairs())));
    }
    let bytes = match &replies[1] {
        Outcome::HttpBytes { status, status_line, body } => {
            if !status_is_success(*status) {
                return Step::Done(
                    Err(
                        McpArvixError::ApiError(
                            concat("Failed to download PDF: ", status_line.as_str()),
                        ),
                    ),
                );
            }
            body
        },
        other => {
            return Step::Done(Err(McpArvixError::HttpError(other.failure())));
        },
    };
    if replies.len() == 2 {
        return Step::Perform(
            Effect::WriteFile { dir: String::from_str("temp"), name, bytes: copy_bytes(bytes) },
        );
    }
    match &replies[2] {
        Outcome::Nothing => {},
        other => {
            return Step::Done(Err(McpArvixError::ApiError(other.failure())));
        },
    }
    if replies.len() == 3 {
        return Step::Perform(Effect::ExtractPdfText { dir: String::from_str("temp"), name });
    }
    let text = match &replies[3] {
        Outcome::Text(text) => text,
        other => {
            return Step::Done(Err(McpArvixError::ApiError(other.failure())));
        },
    };
    if replies.len() == 4 {
        return Step::Perform(Effect::RemoveFile { dir: String::from_str("temp"), name });
    }
    match &replies[4] {
        Outcome::Nothing => Step::Done(
            Ok(ContentEnvelope::single(ToolResponseContent::text(text.clone()))),
        ),
        other => Step::Done(Err(McpArvixError::ApiError(other.failure()))),
    }
}

/// Extracts the text of the paper that `paper_url` names, an arXiv URL or
/// an arXiv ID: the next thing to ask for, or the result, given the answers
/// so far.
pub fn extract_paper_text_tool(paper_url: &str, replies: &Vec<Outcome>) -> (step: Step<
    McpArvixError,
>)
    ensures
        extract_paper_text_step(step, paper_url@, replies@),
{
    match resolve_paper_id(paper_url) {
        Ok(paper_id) => extract_text_of(paper_id.as_str(), replies),
        Err(error) => Step::Done(Err(error)),
    }
}

} // verus!
