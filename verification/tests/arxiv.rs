use mcp_servers::content::{ContentEnvelope, ToolResponseContent};
use mcp_servers::effect::{Effect, HttpMethod, HttpRequest, Outcome, Pair, Step};
use mcp_servers::servers::arvix::errors::McpArvixError;
use mcp_servers::servers::arvix::extract_paper_text::{
    extract_paper_text_tool, paper_id_from_path, resolve_paper_id,
};
use mcp_servers::servers::arxiv::errors::McpArxivError;
use mcp_servers::servers::arxiv::get_paper_by_id::get_paper_by_id_tool;
use mcp_servers::servers::arxiv::list_records::list_records_tool;
use mcp_servers::servers::arxiv::search_by_author::search_by_author_tool;
use mcp_servers::servers::arxiv::search_papers::search_papers_tool;

fn play_arxiv<E>(
    tool: impl Fn(&Vec<Outcome>) -> Step<E>,
    script: Vec<Outcome>,
) -> (Vec<Effect>, Option<Result<ContentEnvelope, E>>) {
    let mut replies = Vec::new();
    let mut asked = Vec::new();
    let mut script = script.into_iter();
    loop {
        match tool(&replies) {
            Step::Perform(effect) => {
                asked.push(effect);
                match script.next() {
                    Some(outcome) => replies.push(outcome),
                    None => return (asked, None),
                }
            }
            Step::Done(result) => return (asked, Some(result)),
        }
    }
}

fn arxiv_reply(status: u16, line: &str, body: &str) -> Outcome {
    Outcome::Http { status, status_line: line.to_string(), body: body.to_string() }
}

fn arxiv_query(url: &str, query: &[(&str, &str)]) -> Effect {
    Effect::Http(HttpRequest {
        method: HttpMethod::Get,
        url: url.to_string(),
        query: query
            .iter()
            .map(|(name, value)| Pair { name: name.to_string(), value: value.to_string() })
            .collect(),
        headers: vec![],
        body: None,
    })
}

fn arxiv_text(text: &str) -> Vec<ToolResponseContent> {
    vec![ToolResponseContent::Text { text: text.to_string() }]
}

#[test]
fn test_get_paper_by_id_tool() {
    let (asked, result) = play_arxiv(
        |replies| get_paper_by_id_tool("2101.00001v2", replies),
        vec![arxiv_reply(200, "200 OK", "<feed>paper</feed>")],
    );
    assert_eq!(
        asked,
        vec![arxiv_query("http://export.arxiv.org/api/query", &[("id_list", "2101.00001v2")])]
    );
    let content = result.expect("ended").expect("content");
    assert!(format!("{:?}", content).len() > 0);
    assert_eq!(content.into_items(), arxiv_text("<feed>paper</feed>"));
}

#[test]
fn test_list_records_tool() {
    let (asked, result) = play_arxiv(
        |replies| list_records_tool("2024-01-01", "2024-01-01", Some("oai_dc"), None, replies),
        vec![arxiv_reply(200, "200 OK", "<OAI-PMH/>")],
    );
    assert_eq!(
        asked,
        vec![arxiv_query(
            "http://export.arxiv.org/oai2",
            &[
                ("verb", "ListRecords"),
                ("from", "2024-01-01"),
                ("until", "2024-01-01"),
                ("metadataPrefix", "oai_dc"),
            ]
        )]
    );
    let content = result.expect("ended").expect("content");
    assert!(format!("{:?}", content).len() > 0);
    assert_eq!(content.into_items(), arxiv_text("<OAI-PMH/>"));
}

#[test]
fn list_records_defaults_the_prefix_and_adds_the_set() {
    let (asked, _) = play_arxiv(
        |replies| list_records_tool("2024-01-01", "2024-02-01", None, Some("cs"), replies),
        vec![],
    );
    assert_eq!(
        asked,
        vec![arxiv_query(
            "http://export.arxiv.org/oai2",
            &[
                ("verb", "ListRecords"),
                ("from", "2024-01-01"),
                ("until", "2024-02-01"),
                ("metadataPrefix", "oai_dc"),
                ("set", "cs"),
            ]
        )]
    );
    let (asked, _) = play_arxiv(
        |replies| list_records_tool("a", "b", Some("arXiv"), None, replies),
        vec![],
    );
    assert_eq!(
        asked,
        vec![arxiv_query(
            "http://export.arxiv.org/oai2",
            &[("verb", "ListRecords"), ("from", "a"), ("until", "b"), ("metadataPrefix", "arXiv")]
        )]
    );
}

#[test]
fn list_records_labels_a_rejection() {
    let (_, result) = play_arxiv(
        |replies| list_records_tool("a", "b", None, None, replies),
        vec![arxiv_reply(503, "503 Service Unavailable", "Retry after 5 seconds")],
    );
    assert_eq!(
        result,
        Some(Err(McpArxivError::ApiError("OAI-PMH API error: Retry after 5 seconds".to_string())))
    );
}

#[test]
fn test_search_by_author_tool() {
    let (asked, result) = play_arxiv(
        |replies| search_by_author_tool("Alekou, A", Some(0), Some(5), replies),
        vec![arxiv_reply(200, "200 OK", "<feed/>")],
    );
    assert_eq!(
        asked,
        vec![arxiv_query(
            "http://export.arxiv.org/api/query",
            &[("search_query", "au:\"Alekou, A\""), ("start", "0"), ("max_results", "5")]
        )]
    );
    let content = result.expect("ended").expect("content");
    assert!(format!("{:?}", content).len() > 0);
    assert_eq!(content.into_items(), arxiv_text("<feed/>"));
}

#[test]
fn search_by_author_defaults_to_ten_results_from_the_first() {
    let (asked, _) =
        play_arxiv(|replies| search_by_author_tool("Einstein, Albert", None, None, replies), vec![]);
    assert_eq!(
        asked,
        vec![arxiv_query(
            "http://export.arxiv.org/api/query",
            &[("search_query", "au:\"Einstein, Albert\""), ("start", "0"), ("max_results", "10")]
        )]
    );
    let (asked, _) = play_arxiv(
        |replies| search_by_author_tool("", Some(4294967295), Some(123), replies),
        vec![],
    );
    assert_eq!(
        asked,
        vec![arxiv_query(
            "http://export.arxiv.org/api/query",
            &[("search_query", "au:\"\""), ("start", "4294967295"), ("max_results", "123")]
        )]
    );
}

#[test]
fn test_search_papers_tool() {
    let (asked, result) = play_arxiv(
        |replies| {
            search_papers_tool(
                "quantum computing",
                Some(0),
                Some(2),
                Some("submittedDate"),
                Some("descending"),
                replies,
            )
        },
        vec![arxiv_reply(200, "200 OK", "<feed>two</feed>")],
    );
    assert_eq!(
        asked,
        vec![arxiv_query(
            "http://export.arxiv.org/api/query",
            &[
                ("search_query", "quantum computing"),
                ("start", "0"),
                ("max_results", "2"),
                ("sortBy", "submittedDate"),
                ("sortOrder", "descending"),
            ]
        )]
    );
    let content = result.expect("ended").expect("content");
    assert!(format!("{:?}", content).len() > 0);
    assert_eq!(content.into_items(), arxiv_text("<feed>two</feed>"));
}

#[test]
fn search_papers_defaults_to_five_results_unsorted() {
    let (asked, _) =
        play_arxiv(|replies| search_papers_tool("cat:cs.CV", None, None, None, None, replies), vec![]);
    assert_eq!(
        asked,
        vec![arxiv_query(
            "http://export.arxiv.org/api/query",
            &[("search_query", "cat:cs.CV"), ("start", "0"), ("max_results", "5")]
        )]
    );
    let (asked, _) = play_arxiv(
        |replies| search_papers_tool("q", Some(7), None, None, Some("ascending"), replies),
        vec![],
    );
    assert_eq!(
        asked,
        vec![arxiv_query(
            "http://export.arxiv.org/api/query",
            &[("search_query", "q"), ("start", "7"), ("max_results", "5"), ("sortOrder", "ascending")]
        )]
    );
}

#[test]
fn rate_limited_backend_is_an_api_error_and_is_not_retried() {
    let (asked, result) = play_arxiv(
        |replies| get_paper_by_id_tool("2101.00001v2", replies),
        vec![
            arxiv_reply(429, "429 Too Many Requests", "rate limited"),
            arxiv_reply(200, "200 OK", "never read"),
        ],
    );
    assert_eq!(asked.len(), 1);
    let error = result.expect("ended").expect_err("failure");
    assert_eq!(error, McpArxivError::ApiError("ArXiv API error: rate limited".to_string()));
    assert_eq!(error.message(), "API error: ArXiv API error: rate limited");
    assert!(error.normalize().message.contains("rate limited"));
}

#[test]
fn status_decides_between_body_and_api_error() {
    for status in [200u16, 201, 204, 299] {
        let (_, result) = play_arxiv(
            |replies| get_paper_by_id_tool("1", replies),
            vec![arxiv_reply(status, "", "body")],
        );
        assert_eq!(result.expect("ended").expect("content").into_items(), arxiv_text("body"));
    }
    for status in [0u16, 100, 199, 300, 301, 404, 500, 65535] {
        let (_, result) = play_arxiv(
            |replies| get_paper_by_id_tool("1", replies),
            vec![arxiv_reply(status, "", "body")],
        );
        assert_eq!(
            result,
            Some(Err(McpArxivError::ApiError("ArXiv API error: body".to_string())))
        );
    }
}

#[test]
fn failed_request_is_an_http_error() {
    let (_, result) = play_arxiv(
        |replies| get_paper_by_id_tool("1", replies),
        vec![Outcome::Failed("connection refused".to_string())],
    );
    assert_eq!(result, Some(Err(McpArxivError::HttpError("connection refused".to_string()))));
    let (_, result) =
        play_arxiv(|replies| get_paper_by_id_tool("1", replies), vec![Outcome::Nothing]);
    assert_eq!(result, Some(Err(McpArxivError::HttpError("unexpected outcome".to_string()))));
}

#[test]
fn test_extract_paper_features_tool() {
    let (asked, result) = play_arxiv(
        |replies| extract_paper_text_tool("https://arxiv.org/abs/2401.00001", replies),
        vec![
            Outcome::Nothing,
            Outcome::HttpBytes {
                status: 200,
                status_line: "200 OK".to_string(),
                body: b"%PDF-1.4".to_vec(),
            },
            Outcome::Nothing,
            Outcome::Text("The text of the paper".to_string()),
            Outcome::Nothing,
        ],
    );
    assert_eq!(
        asked,
        vec![
            Effect::EnsureDir { path: "temp".to_string() },
            Effect::HttpBytes(HttpRequest {
                method: HttpMethod::Get,
                url: "https://arxiv.org/pdf/2401.00001.pdf".to_string(),
                query: vec![],
                headers: vec![],
                body: None,
            }),
            Effect::WriteFile {
                dir: "temp".to_string(),
                name: "2401.00001.pdf".to_string(),
                bytes: b"%PDF-1.4".to_vec(),
            },
            Effect::ExtractPdfText { dir: "temp".to_string(), name: "2401.00001.pdf".to_string() },
            Effect::RemoveFile { dir: "temp".to_string(), name: "2401.00001.pdf".to_string() },
        ]
    );
    let content = result.expect("ended").expect("content");
    assert!(format!("{:?}", content).len() > 0);
    assert_eq!(content.into_items(), arxiv_text("The text of the paper"));
}

#[test]
fn paper_id_is_taken_as_given_or_from_the_url() {
    assert_eq!(resolve_paper_id("2401.00001"), Ok("2401.00001".to_string()));
    assert_eq!(resolve_paper_id("https://example.com/abs/7"), Ok("https://example.com/abs/7".to_string()));
    assert_eq!(resolve_paper_id("https://arxiv.org/abs/2401.00001"), Ok("2401.00001".to_string()));
    assert_eq!(resolve_paper_id("https://arxiv.org/abs/2401.00001v2?x=1#top"), Ok("2401.00001v2".to_string()));
    assert_eq!(resolve_paper_id("https://arxiv.org/pdf/2401.00001/"), Ok("".to_string()));
    assert_eq!(resolve_paper_id("https://arxiv.org"), Ok("".to_string()));
    assert_eq!(
        resolve_paper_id("arxiv.org/abs/2401.00001"),
        Err(McpArvixError::ApiError("relative URL without a base".to_string()))
    );
    assert_eq!(
        resolve_paper_id("mailto:someone@arxiv.org"),
        Err(McpArvixError::ApiError("Invalid URL".to_string()))
    );
    assert_eq!(paper_id_from_path("/abs/2401.00001"), Ok("2401.00001".to_string()));
    assert_eq!(paper_id_from_path("/"), Ok("".to_string()));
    assert_eq!(paper_id_from_path(""), Err(McpArvixError::ApiError("Invalid URL".to_string())));
    assert_eq!(
        paper_id_from_path("abs/2401.00001"),
        Err(McpArvixError::ApiError("Invalid URL".to_string()))
    );
}

#[test]
fn extraction_stops_at_the_first_failure() {
    let ok_download = || Outcome::HttpBytes {
        status: 200,
        status_line: "200 OK".to_string(),
        body: vec![1, 2, 3],
    };
    let cases: Vec<(Vec<Outcome>, McpArvixError, usize)> = vec![
        (
            vec![Outcome::Failed("permission denied".to_string())],
            McpArvixError::ApiError("permission denied".to_string()),
            1,
        ),
        (
            vec![Outcome::Nothing, Outcome::Failed("dns".to_string())],
            McpArvixError::HttpError("dns".to_string()),
            2,
        ),
        (
            vec![
                Outcome::Nothing,
                Outcome::HttpBytes {
                    status: 404,
                    status_line: "404 Not Found".to_string(),
                    body: vec![],
                },
            ],
            McpArvixError::ApiError("Failed to download PDF: 404 Not Found".to_string()),
            2,
        ),
        (
            vec![Outcome::Nothing, ok_download(), Outcome::Failed("disk full".to_string())],
            McpArvixError::ApiError("disk full".to_string()),
            3,
        ),
        (
            vec![
                Outcome::Nothing,
                ok_download(),
                Outcome::Nothing,
                Outcome::Failed("not a PDF".to_string()),
            ],
            McpArvixError::ApiError("not a PDF".to_string()),
            4,
        ),
        (
            vec![
                Outcome::Nothing,
                ok_download(),
                Outcome::Nothing,
                Outcome::Text("text".to_string()),
                Outcome::Failed("busy".to_string()),
            ],
            McpArvixError::ApiError("busy".to_string()),
            5,
        ),
    ];
    for (script, expected, effects) in cases {
        let (asked, result) =
            play_arxiv(|replies| extract_paper_text_tool("2401.00001", replies), script);
        assert_eq!(asked.len(), effects);
        assert_eq!(result, Some(Err(expected)));
    }
    let (asked, result) =
        play_arxiv(|replies| extract_paper_text_tool("https://arxiv.org:x/", replies), vec![]);
    assert_eq!(asked, vec![]);
    assert_eq!(result, Some(Err(McpArvixError::ApiError("invalid port number".to_string()))));
}
