use mcp_servers::content::{ContentEnvelope, ToolResponseContent};
use mcp_servers::effect::{Effect, HttpMethod, HttpRequest, Outcome, Pair, Step};
use mcp_servers::json::{Json, JsonDoc, JsonField, JsonItem, Member};
use mcp_servers::servers::huggingface::errors::McpHuggingFaceError;
use mcp_servers::servers::huggingface::get_model_info::{get_model_info_tool, summarize};
use mcp_servers::servers::huggingface::get_model_sample_images::{
    find_image_target, find_sample_images, get_model_sample_images_tool, image_url_for,
    split_lines,
};
use mcp_servers::servers::huggingface::get_readme::get_readme_tool;
use mcp_servers::servers::huggingface::search_models::search_models_tool;
use mcp_servers::servers::huggingface::whoami::whoami_tool;

fn play_hf(
    tool: impl Fn(&Vec<Outcome>) -> Step<McpHuggingFaceError>,
    script: Vec<Outcome>,
) -> (Vec<Effect>, Option<Result<ContentEnvelope, McpHuggingFaceError>>) {
    let mut replies = Vec::new();
    let mut asked = Vec::new();
    let mut script = script.into_iter();
    loop {
        match tool(&replies) {
            Step::Perform(effect) => {
                asked.push(effect);
                match script.next() {
                    Some(outcome) => replies.push(outcome),
                    None => return (asked, None),
                }
            }
            Step::Done(result) => return (asked, Some(result)),
        }
    }
}

fn hf_reply(status: u16, body: &str) -> Outcome {
    Outcome::Http { status, status_line: status.to_string(), body: body.to_string() }
}

fn hf_get(url: &str, headers: Vec<Pair>) -> Effect {
    Effect::Http(HttpRequest {
        method: HttpMethod::Get,
        url: url.to_string(),
        query: vec![],
        headers,
        body: None,
    })
}

fn hf_text(text: &str) -> Vec<ToolResponseContent> {
    vec![ToolResponseContent::Text { text: text.to_string() }]
}

fn hf_chars(text: &str) -> Vec<char> {
    text.chars().collect()
}

#[test]
fn get_model_info_test_get_model_info_tool() {
    let rendered = "{\"author\":\"HiDream-ai\",\"tags\":[\"diffusers\"],\"license\":\"mit\",\"pipeline_tag\":\"text-to-image\"}";
    let (asked, result) = play_hf(
        |replies| get_model_info_tool("HiDream-ai/HiDream-I1-Full", replies),
        vec![
            hf_reply(200, rendered),
            Outcome::Json(JsonDoc {
                rendered: rendered.to_string(),
                fields: vec![
                    JsonField::Text { text: "HiDream-ai".to_string() },
                    JsonField::List {
                        items: vec![JsonItem::Text("diffusers".to_string())],
                        rendered: "[\"diffusers\"]".to_string(),
                    },
                    JsonField::Text { text: "mit".to_string() },
                    JsonField::Text { text: "text-to-image".to_string() },
                    JsonField::Missing,
                ],
            }),
            Outcome::Text("{\"summary\":true}".to_string()),
        ],
    );
    let member = |key: &str, value: Json| Member { key: key.to_string(), value };
    assert_eq!(
        asked,
        vec![
            hf_get("https://huggingface.co/api/models/HiDream-ai/HiDream-I1-Full", vec![]),
            Effect::ReadJson {
                text: rendered.to_string(),
                keys: vec![
                    "author".to_string(),
                    "tags".to_string(),
                    "license".to_string(),
                    "pipeline_tag".to_string(),
                    "cardData".to_string(),
                ],
            },
            Effect::RenderJson(Json::Object(vec![
                member("modelId", Json::Text("HiDream-ai/HiDream-I1-Full".to_string())),
                member("author", Json::Text("HiDream-ai".to_string())),
                member("tags", Json::Raw("[\"diffusers\"]".to_string())),
                member("license", Json::Text("mit".to_string())),
                member("pipeline", Json::Text("text-to-image".to_string())),
                member("cardData", Json::Null),
            ])),
        ]
    );
    let content = result.expect("ended").expect("content");
    assert!(format!("{:?}", content).len() > 0);
    assert_eq!(content.into_items(), hf_text("{\"summary\":true}"));
}

#[test]
fn model_summary_takes_strings_and_passes_the_rest_through() {
    let member = |key: &str, value: Json| Member { key: key.to_string(), value };
    let doc = JsonDoc {
        rendered: "{}".to_string(),
        fields: vec![
            JsonField::Other { rendered: "7".to_string() },
            JsonField::Text { text: "one tag".to_string() },
            JsonField::Missing,
        ],
    };
    assert_eq!(
        summarize("m", &doc),
        Json::Object(vec![
            member("modelId", Json::Text("m".to_string())),
            member("author", Json::Text("".to_string())),
            member("tags", Json::Text("one tag".to_string())),
            member("license", Json::Text("".to_string())),
            member("pipeline", Json::Text("".to_string())),
            member("cardData", Json::Null),
        ])
    );
    let doc = JsonDoc {
        rendered: "{}".to_string(),
        fields: vec![
            JsonField::Missing,
            JsonField::Other { rendered: "null".to_string() },
            JsonField::List { items: vec![], rendered: "[]".to_string() },
            JsonField::Other { rendered: "{}".to_string() },
            JsonField::Other { rendered: "{\"license\":\"mit\"}".to_string() },
        ],
    };
    assert_eq!(
        summarize("", &doc),
        Json::Object(vec![
            member("modelId", Json::Text("".to_string())),
            member("author", Json::Text("".to_string())),
            member("tags", Json::Raw("null".to_string())),
            member("license", Json::Text("".to_string())),
            member("pipeline", Json::Text("".to_string())),
            member("cardData", Json::Raw("{\"license\":\"mit\"}".to_string())),
        ])
    );
}

#[test]
fn model_info_failures_keep_their_kind() {
    let (_, result) = play_hf(
        |replies| get_model_info_tool("m", replies),
        vec![Outcome::Failed("unreachable".to_string())],
    );
    assert_eq!(result, Some(Err(McpHuggingFaceError::HttpError("unreachable".to_string()))));
    let (_, result) = play_hf(
        |replies| get_model_info_tool("m", replies),
        vec![hf_reply(200, "<html>"), Outcome::Failed("expected value".to_string())],
    );
    assert_eq!(result, Some(Err(McpHuggingFaceError::HttpError("expected value".to_string()))));
    let (_, result) = play_hf(
        |replies| get_model_info_tool("m", replies),
        vec![
            hf_reply(200, "{}"),
            Outcome::Json(JsonDoc { rendered: "{}".to_string(), fields: vec![] }),
            Outcome::Failed("cannot write".to_string()),
        ],
    );
    assert_eq!(result, Some(Err(McpHuggingFaceError::JsonParseError("cannot write".to_string()))));
}

#[test]
fn test_get_model_sample_images_tool() {
    let readme = "# HiDream\n![demo](assets/demo.jpg)\nsome text\n![logo](https://cdn.test/logo.png) and ![x](y)\n";
    let (asked, result) = play_hf(
        |replies| get_model_sample_images_tool("HiDream-ai/HiDream-I1-Full", replies),
        vec![hf_reply(200, readme)],
    );
    assert_eq!(
        asked,
        vec![hf_get("https://huggingface.co/HiDream-ai/HiDream-I1-Full/raw/main/README.md", vec![])]
    );
    let content = result.expect("ended").expect("content");
    assert!(format!("{:?}", content).len() > 0);
    assert_eq!(
        content.into_items(),
        hf_text("[\"https://huggingface.co/HiDream-ai/HiDream-I1-Full/resolve/main/assets/demo.jpg\",\"https://cdn.test/logo.png\"]")
    );
}

#[test]
fn sample_images_of_a_readme_without_images_are_an_empty_array() {
    let (_, result) =
        play_hf(|replies| get_model_sample_images_tool("o/m", replies), vec![hf_reply(200, "")]);
    assert_eq!(result.expect("ended").expect("content").into_items(), hf_text("[]"));
    let (_, result) = play_hf(
        |replies| get_model_sample_images_tool("o/m", replies),
        vec![hf_reply(404, "![a](b.png)")],
    );
    assert_eq!(result, Some(Err(McpHuggingFaceError::ApiError("![a](b.png)".to_string()))));
    let (_, result) = play_hf(
        |replies| get_model_sample_images_tool("o/m", replies),
        vec![hf_reply(200, "![a](\"q\\uote\".png)")],
    );
    assert_eq!(
        result.expect("ended").expect("content").into_items(),
        hf_text("[\"https://huggingface.co/o/m/resolve/main/\\\"q\\\\uote\\\".png\"]")
    );
}

#[test]
fn wrong_login_is_an_api_error() {
    let (_, result) = play_hf(
        |replies| get_model_sample_images_tool("o/m", replies),
        vec![hf_reply(401, "Invalid username or password.")],
    );
    assert_eq!(
        result,
        Some(Err(McpHuggingFaceError::ApiError("Invalid username or password".to_string())))
    );
    let (_, result) = play_hf(
        |replies| get_model_sample_images_tool("o/m", replies),
        vec![hf_reply(200, "Invalid username or password.")],
    );
    assert_eq!(
        result,
        Some(Err(McpHuggingFaceError::ApiError("Invalid username or password".to_string())))
    );
    let (_, result) = play_hf(
        |replies| get_model_sample_images_tool("o/m", replies),
        vec![hf_reply(401, "Invalid username or password.\n")],
    );
    assert_eq!(
        result,
        Some(Err(McpHuggingFaceError::ApiError("Invalid username or password.\n".to_string())))
    );
    let (_, result) = play_hf(
        |replies| get_model_sample_images_tool("o/m", replies),
        vec![hf_reply(200, "Invalid username or password.\n")],
    );
    assert_eq!(result.expect("ended").expect("content").into_items(), hf_text("[]"));
    let (_, result) = play_hf(
        |replies| get_model_sample_images_tool("o/m", replies),
        vec![Outcome::Failed("reset".to_string())],
    );
    assert_eq!(result, Some(Err(McpHuggingFaceError::HttpError("reset".to_string()))));
}

#[test]
fn lines_end_at_line_feeds() {
    let lines = |text: &str| -> Vec<String> {
        split_lines(&hf_chars(text)).into_iter().map(|line| line.into_iter().collect()).collect()
    };
    let expect = |text: &str| -> Vec<String> { text.lines().map(|line| line.to_string()).collect() };
    for text in [
        "",
        "a",
        "a\n",
        "a\nb",
        "a\n\nb\n",
        "\n",
        "\n\n",
        "a\r\nb\r\n",
        "a\r",
        "a\r\n",
        "\r\n",
        "a\r\r\nb",
        "a\rb\nc",
        "\r",
        "é\n\u{1f44d}\r\n",
    ] {
        assert_eq!(lines(text), expect(text), "{:?}", text);
    }
    assert_eq!(lines("a\r\nb\n\nc"), vec!["a", "b", "", "c"]);
    assert_eq!(lines("a\r"), vec!["a\r"]);
}

#[test]
fn image_target_is_what_the_first_image_of_a_line_points_to() {
    let target = |line: &str| -> Option<String> {
        find_image_target(&hf_chars(line)).map(|found| found.into_iter().collect())
    };
    assert_eq!(target("![alt](a.png)"), Some("a.png".to_string()));
    assert_eq!(target("text ![alt](a.png) more ![b](c.png)"), Some("a.png".to_string()));
    assert_eq!(target("![]()"), Some("".to_string()));
    assert_eq!(target("![alt] (a.png)"), None);
    assert_eq!(target("![alt](a.png"), None);
    assert_eq!(target("[alt](a.png)"), None);
    assert_eq!(target("](a.png) ![alt]"), None);
    assert_eq!(target("](x) ![alt](a.png)"), Some("a.png".to_string()));
    assert_eq!(target("![a [link](l.html) b](i.png)"), Some("l.html".to_string()));
    assert_eq!(target("![é\u{1f44d}](ü.png)"), Some("ü.png".to_string()));
    assert_eq!(target("![a](b)c)"), Some("b".to_string()));
    assert_eq!(target("!["), None);
    assert_eq!(target(""), None);
    assert_eq!(target("![]("), None);
}

#[test]
fn relative_image_targets_resolve_in_the_repository() {
    assert_eq!(image_url_for(&hf_chars("http://x/y.png"), "o/m"), "http://x/y.png");
    assert_eq!(image_url_for(&hf_chars("https://x/y.png"), "o/m"), "https://x/y.png");
    assert_eq!(image_url_for(&hf_chars("httpfoo"), "o/m"), "httpfoo");
    assert_eq!(
        image_url_for(&hf_chars("Http://x"), "o/m"),
        "https://huggingface.co/o/m/resolve/main/Http://x"
    );
    assert_eq!(
        image_url_for(&hf_chars("./a b.png"), "o/m"),
        "https://huggingface.co/o/m/resolve/main/./a b.png"
    );
    assert_eq!(image_url_for(&hf_chars(""), "o/m"), "https://huggingface.co/o/m/resolve/main/");
    assert_eq!(
        find_sample_images("![a](1.png)\r\n\r\n![b](http://h/2.png)\r\n![c](3.png", "id"),
        vec!["https://huggingface.co/id/resolve/main/1.png", "http://h/2.png"]
    );
}

#[test]
fn test_get_readme_tool() {
    let (asked, result) = play_hf(
        |replies| get_readme_tool("HiDream-ai/HiDream-I1-Full", replies),
        vec![hf_reply(200, "# HiDream-I1\n")],
    );
    assert_eq!(
        asked,
        vec![hf_get("https://huggingface.co/HiDream-ai/HiDream-I1-Full/raw/main/README.md", vec![])]
    );
    assert_eq!(result.expect("ended").expect("content").into_items(), hf_text("# HiDream-I1\n"));
    let (_, result) = play_hf(
        |replies| get_readme_tool("o/m", replies),
        vec![hf_reply(404, "Entry not found")],
    );
    assert_eq!(result, Some(Err(McpHuggingFaceError::ApiError("Entry not found".to_string()))));
    let (_, result) =
        play_hf(|replies| get_readme_tool("o/m", replies), vec![Outcome::Failed("x".to_string())]);
    assert_eq!(result, Some(Err(McpHuggingFaceError::HttpError("x".to_string()))));
}

#[test]
fn huggingface_rejections_are_failures_that_hold_the_body() {
    let rejected = || Some(Err(McpHuggingFaceError::ApiError("rate limited".to_string())));
    let script = || {
        vec![
            hf_reply(429, "rate limited"),
            Outcome::Json(JsonDoc { rendered: "{}".to_string(), fields: vec![] }),
        ]
    };
    let (asked, result) = play_hf(|replies| get_readme_tool("o/m", replies), script());
    assert_eq!(asked.len(), 1);
    assert_eq!(result, rejected());
    let (asked, result) = play_hf(|replies| search_models_tool("k", None, replies), script());
    assert_eq!(asked.len(), 1);
    assert_eq!(result, rejected());
    let (asked, result) = play_hf(|replies| get_model_info_tool("o/m", replies), script());
    assert_eq!(asked.len(), 1);
    assert_eq!(result, rejected());
    let (asked, result) =
        play_hf(|replies| get_model_sample_images_tool("o/m", replies), script());
    assert_eq!(asked.len(), 1);
    assert_eq!(result, rejected());
    let env = vec![Pair { name: "HF_API_TOKEN".to_string(), value: "hf_token".to_string() }];
    let (asked, result) = play_hf(|replies| whoami_tool(&env, replies), script());
    assert_eq!(asked.len(), 1);
    assert_eq!(result, rejected());
    let error = McpHuggingFaceError::ApiError("rate limited".to_string());
    assert_eq!(error.message(), "API error: rate limited");
    assert!(error.normalize().message.contains("rate limited"));
}

#[test]
fn test_search_models_tool() {
    let (asked, result) = play_hf(
        |replies| search_models_tool("stable diffusion", Some(5), replies),
        vec![hf_reply(200, "[]")],
    );
    assert_eq!(
        asked,
        vec![hf_get(
            "https://huggingface.co/api/models?search=stable%20diffusion&pipeline_tag=text-to-image&limit=5",
            vec![]
        )]
    );
    let content = result.expect("ended").expect("content");
    assert!(format!("{:?}", content).len() > 0);
    assert_eq!(content.into_items(), hf_text("[]"));
}

#[test]
fn search_models_defaults_to_ten_and_encodes_every_byte_that_is_reserved() {
    let (asked, _) = play_hf(|replies| search_models_tool("Az09-._~", None, replies), vec![]);
    assert_eq!(
        asked,
        vec![hf_get(
            "https://huggingface.co/api/models?search=Az09-._~&pipeline_tag=text-to-image&limit=10",
            vec![]
        )]
    );
    let (asked, _) =
        play_hf(|replies| search_models_tool("a+b=c&d/é\u{1f44d}%", Some(18446744073709551615), replies), vec![]);
    assert_eq!(
        asked,
        vec![hf_get(
            "https://huggingface.co/api/models?search=a%2Bb%3Dc%26d%2F%C3%A9%F0%9F%91%8D%25&pipeline_tag=text-to-image&limit=18446744073709551615",
            vec![]
        )]
    );
    let (asked, _) = play_hf(|replies| search_models_tool("", Some(0), replies), vec![]);
    assert_eq!(
        asked,
        vec![hf_get(
            "https://huggingface.co/api/models?search=&pipeline_tag=text-to-image&limit=0",
            vec![]
        )]
    );
}

#[test]
fn whoami_test_whoami_tool() {
    let env = vec![Pair { name: "HF_API_TOKEN".to_string(), value: "hf_token".to_string() }];
    let (asked, result) =
        play_hf(|replies| whoami_tool(&env, replies), vec![hf_reply(200, "{\"name\":\"me\"}")]);
    assert_eq!(
        asked,
        vec![hf_get(
            "https://huggingface.co/api/whoami-v2",
            vec![Pair { name: "authorization".to_string(), value: "Bearer hf_token".to_string() }]
        )]
    );
    let content = result.expect("ended").expect("content");
    assert!(format!("{:?}", content).len() > 0);
    assert_eq!(content.into_items(), hf_text("{\"name\":\"me\"}"));
    let other = vec![Pair { name: "HF_API_TOKEN_".to_string(), value: "hf_token".to_string() }];
    let (asked, result) = play_hf(|replies| whoami_tool(&other, replies), vec![]);
    assert_eq!(asked, vec![]);
    assert_eq!(result, Some(Err(McpHuggingFaceError::MissingToken)));
}
