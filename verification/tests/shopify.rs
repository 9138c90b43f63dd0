use mcp_servers::content::{ContentEnvelope, ToolResponseContent};
use mcp_servers::effect::{Effect, HttpMethod, HttpRequest, Outcome, Pair, Step};
use mcp_servers::json::{Json, Member};
use mcp_servers::servers::shopify::add_product_image::{add_product_image_tool, MEDIA_MUTATION};
use mcp_servers::servers::shopify::create_order::create_order_tool;
use mcp_servers::servers::shopify::create_product::create_product_tool;
use mcp_servers::servers::shopify::delete_order::delete_order_tool;
use mcp_servers::servers::shopify::delete_product::delete_product_tool;
use mcp_servers::servers::shopify::errors::McpShopifyError;
use mcp_servers::servers::shopify::get_order::get_order_tool;
use mcp_servers::servers::shopify::get_product::get_product_tool;
use mcp_servers::servers::shopify::list_customers::list_customers_tool;
use mcp_servers::servers::shopify::update_product::update_product_tool;

fn play_shopify(
    tool: impl Fn(&Vec<Outcome>) -> Step<McpShopifyError>,
    script: Vec<Outcome>,
) -> (Vec<Effect>, Option<Result<ContentEnvelope, McpShopifyError>>) {
    let mut replies = Vec::new();
    let mut asked = Vec::new();
    let mut script = script.into_iter();
    loop {
        match tool(&replies) {
            Step::Perform(effect) => {
                asked.push(effect);
                match script.next() {
                    Some(outcome) => replies.push(outcome),
                    None => return (asked, None),
                }
            }
            Step::Done(result) => return (asked, Some(result)),
        }
    }
}

fn shop_env() -> Vec<Pair> {
    vec![
        Pair { name: "SHOPIFY_ACCESS_TOKEN".to_string(), value: "shpat_1".to_string() },
        Pair { name: "SHOPIFY_SHOP_DOMAIN".to_string(), value: "shop.myshopify.com".to_string() },
    ]
}

fn shop_reply(status: u16, body: &str) -> Outcome {
    Outcome::Http { status, status_line: status.to_string(), body: body.to_string() }
}

fn shop_request(method: HttpMethod, path: &str, body: Option<Json>) -> Effect {
    Effect::Http(HttpRequest {
        method,
        url: format!("https://shop.myshopify.com{}", path),
        query: vec![],
        headers: vec![Pair { name: "X-Shopify-Access-Token".to_string(), value: "shpat_1".to_string() }],
        body,
    })
}

fn entry(key: &str, value: Json) -> Member {
    Member { key: key.to_string(), value }
}

fn words(text: &str) -> Json {
    Json::Text(text.to_string())
}

fn shop_text(text: &str) -> Vec<ToolResponseContent> {
    vec![ToolResponseContent::Text { text: text.to_string() }]
}

#[test]
fn test_add_product_image_tool() {
    let env = shop_env();
    let (asked, result) = play_shopify(
        |replies| {
            add_product_image_tool(
                &env,
                "gid://shopify/Product/9829406277917",
                "https://cdn.shopify.com/s/files/1/0070/7032/files/logohashtag.png",
                "Test Product Image",
                replies,
            )
        },
        vec![shop_reply(200, "{\"data\":{}}")],
    );
    assert_eq!(
        asked,
        vec![Effect::Http(HttpRequest {
            method: HttpMethod::Post,
            url: "https://shop.myshopify.com/admin/api/2025-04/graphql.json".to_string(),
            query: vec![],
            headers: vec![
                Pair { name: "X-Shopify-Access-Token".to_string(), value: "shpat_1".to_string() },
                Pair { name: "Content-Type".to_string(), value: "application/json".to_string() },
            ],
            body: Some(Json::Object(vec![
                entry("query", words(MEDIA_MUTATION)),
                entry(
                    "variables",
                    Json::Object(vec![
                        entry("productId", words("gid://shopify/Product/9829406277917")),
                        entry(
                            "media",
                            Json::List(vec![Json::Object(vec![
                                entry("alt", words("Test Product Image")),
                                entry("mediaContentType", words("IMAGE")),
                                entry(
                                    "originalSource",
                                    words("https://cdn.shopify.com/s/files/1/0070/7032/files/logohashtag.png")
                                ),
                            ])])
                        ),
                    ])
                ),
            ])),
        })]
    );
    assert!(MEDIA_MUTATION.starts_with("\n        mutation productCreateMedia($media: [CreateMediaInput!]!, $productId: ID!) {\n"));
    assert!(MEDIA_MUTATION.ends_with("}\n    "));
    let content = result.expect("ended").expect("content");
    assert!(format!("{:?}", content).len() > 0);
    assert_eq!(content.into_items(), shop_text("{\"data\":{}}"));
}

#[test]
fn test_create_order_tool() {
    let env = shop_env();
    let line_items = vec!["{\"quantity\":1,\"variant_id\":123456789}".to_string()];
    let (asked, result) = play_shopify(
        |replies| create_order_tool(&env, &line_items, None, replies),
        vec![shop_reply(201, "{\"order\":{}}")],
    );
    assert_eq!(
        asked,
        vec![shop_request(
            HttpMethod::Post,
            "/admin/api/2022-04/orders.json",
            Some(Json::Object(vec![entry(
                "order",
                Json::Object(vec![
                    entry(
                        "line_items",
                        Json::List(vec![Json::Raw("{\"quantity\":1,\"variant_id\":123456789}".to_string())])
                    ),
                    entry("customer", Json::Null),
                ])
            )]))
        )]
    );
    let content = result.expect("ended").expect("content");
    assert!(format!("{:?}", content).len() > 0);
    assert_eq!(content.into_items(), shop_text("{\"order\":{}}"));
}

#[test]
fn create_order_names_the_customer() {
    let env = shop_env();
    let (asked, _) =
        play_shopify(|replies| create_order_tool(&env, &vec![], Some("42"), replies), vec![]);
    assert_eq!(
        asked,
        vec![shop_request(
            HttpMethod::Post,
            "/admin/api/2022-04/orders.json",
            Some(Json::Object(vec![entry(
                "order",
                Json::Object(vec![
                    entry("line_items", Json::List(vec![])),
                    entry("customer", Json::Object(vec![entry("id", words("42"))])),
                ])
            )]))
        )]
    );
}

#[test]
fn test_create_product_tool() {
    let env = shop_env();
    let (asked, result) = play_shopify(
        |replies| {
            create_product_tool(
                &env,
                "Test Product",
                Some("Test Description"),
                Some("Test Vendor"),
                Some("Test Type"),
                Some("9.99"),
                Some("https://example.com/test-image.jpg"),
                replies,
            )
        },
        vec![shop_reply(201, "{\"product\":{\"id\":1}}")],
    );
    assert_eq!(
        asked,
        vec![shop_request(
            HttpMethod::Post,
            "/admin/api/2022-04/products.json",
            Some(Json::Object(vec![entry(
                "product",
                Json::Object(vec![
                    entry("title", words("Test Product")),
                    entry("body_html", words("Test Description")),
                    entry("vendor", words("Test Vendor")),
                    entry("product_type", words("Test Type")),
                    entry("variants", Json::List(vec![Json::Object(vec![entry("price", words("9.99"))])])),
                    entry(
                        "images",
                        Json::List(vec![Json::Object(vec![entry(
                            "src",
                            words("https://example.com/test-image.jpg")
                        )])])
                    ),
                ])
            )]))
        )]
    );
    let content = result.expect("ended").expect("content");
    assert!(format!("{:?}", content).len() > 0);
    assert_eq!(content.into_items(), shop_text("{\"product\":{\"id\":1}}"));
}

#[test]
fn create_product_writes_null_for_what_is_not_given() {
    let env = shop_env();
    let (asked, _) = play_shopify(
        |replies| create_product_tool(&env, "T", None, None, None, None, None, replies),
        vec![],
    );
    assert_eq!(
        asked,
        vec![shop_request(
            HttpMethod::Post,
            "/admin/api/2022-04/products.json",
            Some(Json::Object(vec![entry(
                "product",
                Json::Object(vec![
                    entry("title", words("T")),
                    entry("body_html", Json::Null),
                    entry("vendor", Json::Null),
                    entry("product_type", Json::Null),
                    entry("variants", Json::List(vec![Json::Object(vec![entry("price", Json::Null)])])),
                ])
            )]))
        )]
    );
}

#[test]
fn test_delete_order_tool() {
    let env = shop_env();
    let (asked, result) = play_shopify(
        |replies| delete_order_tool(&env, "123456789", replies),
        vec![shop_reply(200, "{}")],
    );
    assert_eq!(
        asked,
        vec![shop_request(HttpMethod::Delete, "/admin/api/2022-04/orders/123456789.json", None)]
    );
    let content = result.expect("ended").expect("content");
    assert!(format!("{:?}", content).len() > 0);
    assert_eq!(content.into_items(), shop_text("{}"));
}

#[test]
fn test_delete_product_tool() {
    let env = shop_env();
    let (asked, result) = play_shopify(
        |replies| delete_product_tool(&env, "123456789", replies),
        vec![shop_reply(200, "{}")],
    );
    assert_eq!(
        asked,
        vec![shop_request(HttpMethod::Delete, "/admin/api/2022-04/products/123456789.json", None)]
    );
    let content = result.expect("ended").expect("content");
    assert!(format!("{:?}", content).len() > 0);
    assert_eq!(content.into_items(), shop_text("{}"));
}

#[test]
fn test_get_order_tool() {
    let env = shop_env();
    let (asked, result) = play_shopify(
        |replies| get_order_tool(&env, "123456789", replies),
        vec![shop_reply(200, "{\"order\":{\"id\":123456789}}")],
    );
    assert_eq!(
        asked,
        vec![shop_request(HttpMethod::Get, "/admin/api/2022-04/orders/123456789.json", None)]
    );
    let content = result.expect("ended").expect("content");
    assert!(format!("{:?}", content).len() > 0);
    assert_eq!(content.into_items(), shop_text("{\"order\":{\"id\":123456789}}"));
}

#[test]
fn shopify_rejections_are_failures_that_hold_the_body() {
    let env = shop_env();
    let (asked, result) = play_shopify(
        |replies| get_order_tool(&env, "123456789", replies),
        vec![shop_reply(404, "{\"errors\":\"Not Found\"}"), shop_reply(200, "never read")],
    );
    assert_eq!(asked.len(), 1);
    assert_eq!(
        result,
        Some(Err(McpShopifyError::ApiError("{\"errors\":\"Not Found\"}".to_string())))
    );
    let rejected = || Some(Err(McpShopifyError::ApiError("rate limited".to_string())));
    let script = || vec![shop_reply(429, "rate limited")];
    assert_eq!(play_shopify(|replies| list_customers_tool(&env, replies), script()).1, rejected());
    assert_eq!(play_shopify(|replies| get_product_tool(&env, "1", replies), script()).1, rejected());
    assert_eq!(play_shopify(|replies| delete_order_tool(&env, "1", replies), script()).1, rejected());
    assert_eq!(
        play_shopify(|replies| delete_product_tool(&env, "1", replies), script()).1,
        rejected()
    );
    assert_eq!(
        play_shopify(|replies| create_order_tool(&env, &vec![], None, replies), script()).1,
        rejected()
    );
    assert_eq!(
        play_shopify(
            |replies| create_product_tool(&env, "T", None, None, None, None, None, replies),
            script()
        )
        .1,
        rejected()
    );
    assert_eq!(
        play_shopify(
            |replies| update_product_tool(&env, "1", "T", None, None, None, None, replies),
            script()
        )
        .1,
        rejected()
    );
    assert_eq!(
        play_shopify(|replies| add_product_image_tool(&env, "p", "u", "a", replies), script()).1,
        rejected()
    );
    let error = McpShopifyError::ApiError("rate limited".to_string());
    assert_eq!(error.message(), "API error: rate limited");
    assert!(error.normalize().message.contains("rate limited"));
    for status in [200u16, 201, 299] {
        let (_, result) = play_shopify(
            |replies| list_customers_tool(&env, replies),
            vec![shop_reply(status, "ok")],
        );
        assert_eq!(result.expect("ended").expect("content").into_items(), shop_text("ok"));
    }
}

#[test]
fn test_get_product_tool() {
    let env = shop_env();
    let (asked, result) = play_shopify(
        |replies| get_product_tool(&env, "123456789", replies),
        vec![shop_reply(200, "{\"product\":{}}")],
    );
    assert_eq!(
        asked,
        vec![shop_request(HttpMethod::Get, "/admin/api/2022-04/products/123456789.json", None)]
    );
    let content = result.expect("ended").expect("content");
    assert!(format!("{:?}", content).len() > 0);
    assert_eq!(content.into_items(), shop_text("{\"product\":{}}"));
}

#[test]
fn test_list_customers_tool() {
    let env = shop_env();
    let (asked, result) = play_shopify(
        |replies| list_customers_tool(&env, replies),
        vec![shop_reply(200, "{\"customers\":[]}")],
    );
    assert_eq!(asked, vec![shop_request(HttpMethod::Get, "/admin/api/2022-04/customers.json", None)]);
    let content = result.expect("ended").expect("content");
    assert!(format!("{:?}", content).len() > 0);
    assert_eq!(content.into_items(), shop_text("{\"customers\":[]}"));
}

#[test]
fn test_update_product_tool() {
    let env = shop_env();
    let (asked, result) = play_shopify(
        |replies| {
            update_product_tool(
                &env,
                "123456789",
                "Updated Test Product",
                Some("Updated Description"),
                Some("Updated Vendor"),
                Some("Updated Type"),
                Some("19.99"),
                replies,
            )
        },
        vec![shop_reply(200, "{\"product\":{\"id\":123456789}}")],
    );
    assert_eq!(
        asked,
        vec![shop_request(
            HttpMethod::Put,
            "/admin/api/2022-04/products/123456789.json",
            Some(Json::Object(vec![entry(
                "product",
                Json::Object(vec![
                    entry("id", words("123456789")),
                    entry("title", words("Updated Test Product")),
                    entry("body_html", words("Updated Description")),
                    entry("vendor", words("Updated Vendor")),
                    entry("product_type", words("Updated Type")),
                    entry("variants", Json::List(vec![Json::Object(vec![entry("price", words("19.99"))])])),
                ])
            )]))
        )]
    );
    let content = result.expect("ended").expect("content");
    assert!(format!("{:?}", content).len() > 0);
    assert_eq!(content.into_items(), shop_text("{\"product\":{\"id\":123456789}}"));
}

#[test]
fn shopify_tools_need_domain_and_token() {
    let only_token =
        vec![Pair { name: "SHOPIFY_ACCESS_TOKEN".to_string(), value: "t".to_string() }];
    let only_domain = vec![Pair { name: "SHOPIFY_SHOP_DOMAIN".to_string(), value: "d".to_string() }];
    for env in [vec![], only_token] {
        assert_eq!(
            play_shopify(|replies| list_customers_tool(&env, replies), vec![]),
            (vec![], Some(Err(McpShopifyError::MissingShopifyDomain)))
        );
        assert_eq!(
            play_shopify(|replies| get_order_tool(&env, "1", replies), vec![]),
            (vec![], Some(Err(McpShopifyError::MissingShopifyDomain)))
        );
    }
    assert_eq!(
        play_shopify(|replies| list_customers_tool(&only_domain, replies), vec![]),
        (vec![], Some(Err(McpShopifyError::MissingShopifyAccessToken)))
    );
    assert_eq!(
        play_shopify(|replies| create_order_tool(&only_domain, &vec![], None, replies), vec![]),
        (vec![], Some(Err(McpShopifyError::MissingShopifyAccessToken)))
    );
}

#[test]
fn shopify_call_that_fails_is_an_http_error() {
    let env = shop_env();
    let (asked, result) = play_shopify(
        |replies| get_product_tool(&env, "1", replies),
        vec![Outcome::Failed("tls handshake".to_string())],
    );
    assert_eq!(asked.len(), 1);
    let error = result.expect("ended").expect_err("failure");
    assert_eq!(error, McpShopifyError::HttpError("tls handshake".to_string()));
    assert_eq!(error.message(), "HTTP error: tls handshake");
}

#[test]
fn first_variable_of_a_name_counts() {
    let env = vec![
        Pair { name: "SHOPIFY_SHOP_DOMAIN".to_string(), value: "first.test".to_string() },
        Pair { name: "SHOPIFY_ACCESS_TOKEN".to_string(), value: "one".to_string() },
        Pair { name: "SHOPIFY_SHOP_DOMAIN".to_string(), value: "second.test".to_string() },
    ];
    let (asked, _) = play_shopify(|replies| list_customers_tool(&env, replies), vec![]);
    assert_eq!(
        asked,
        vec![Effect::Http(HttpRequest {
            method: HttpMethod::Get,
            url: "https://first.test/admin/api/2022-04/customers.json".to_string(),
            query: vec![],
            headers: vec![Pair { name: "X-Shopify-Access-Token".to_string(), value: "one".to_string() }],
            body: None,
        })]
    );
}
