//! What the Shopify tools have in common: one request to the Admin API of
//! the shop, signed with the access token, and a response whose body is the
//! result.

use vstd::prelude::*;
use crate::content::{ContentEnvelope, ErrorKind, ShopifyErrorKind, ToolResponseContent};
use crate::effect::{
    exchange, fails, failure_text, find_pair, is_success, no_pairs, pair_value, pairs_view,
    push_pair, sends, status_is_success, yields_text, Exchange, HttpMethod, HttpRequest,
    HttpRequestView, Outcome, Pair, Step,
};
use crate::json::{Json, JsonView};
use crate::servers::shopify::errors::McpShopifyError;
use crate::text::concat;

verus! {

/// The request to the Admin API of the shop at `domain`: `method` on
/// `path`, signed with `token`, with `body` if there is one. `declares_json`
/// says whether a header declares the body as JSON.
pub open spec fn admin_request(
    domain: Seq<char>,
    token: Seq<char>,
    method: HttpMethod,
    path: Seq<char>,
    declares_json: bool,
    body: Option<JsonView>,
) -> HttpRequestView {
    HttpRequestView {
        method,
        url: "https://"@ + domain + path,
        query: Seq::empty(),
        headers: if declares_json {
            seq![("X-Shopify-Access-Token"@, token), ("Content-Type"@, "application/json"@)]
        } else {
            seq![("X-Shopify-Access-Token"@, token)]
        },
        body,
    }
}

/// What a Shopify tool does with its request, given the environment and
/// the answers so far.
///
/// It fails where the environment holds no shop domain, and then where it
/// holds no access token. It sends the request. A response whose status is
/// a success ends it with the body of the response; any other response ends
/// it with `ApiError` and the body. A call that fails ends it with
/// `HttpError`.
pub open spec fn admin_step(
    step: Step<McpShopifyError>,
    env: Seq<Pair>,
    method: HttpMethod,
    path: Seq<char>,
    declares_json: bool,
    body: Option<JsonView>,
    replies: Seq<Outcome>,
) -> bool {
    match pair_value(env, "SHOPIFY_SHOP_DOMAIN"@) {
        None => fails(
            step,
            ErrorKind::Shopify(ShopifyErrorKind::MissingShopifyDomain),
            Seq::empty(),
        ),
        Some(domain) => match pair_value(env, "SHOPIFY_ACCESS_TOKEN"@) {
            None => fails(
                step,
                ErrorKind::Shopify(ShopifyErrorKind::MissingShopifyAccessToken),
                Seq::empty(),
            ),
            Some(token) => if replies.len() == 0 {
                sends(step, admin_request(domain, token, method, path, declares_json, body))
            } else {
                match replies[0] {
                    Outcome::Http { status, status_line, body } => if is_success(status) {
                        yields_text(step, body@)
                    } else {
                        fails(step, ErrorKind::Shopify(ShopifyErrorKind::ApiError), body@)
                    },
                    other => fails(
                        step,
                        ErrorKind::Shopify(ShopifyErrorKind::HttpError),
                        failure_text(other),
                    ),
                }
            },
        },
    }
}

/// Sends one request to the Admin API of the shop, or reads what came
/// back.
pub fn call_admin(
    env: &Vec<Pair>,
    method: HttpMethod,
    path: &str,
    declares_json: bool,
    body: Option<Json>,
    replies: &Vec<Outcome>,
) -> (step: Step<McpShopifyError>)
    ensures
        admin_step(
            step,
            env@,
            method,
            path@,
            declares_json,
            match body {
                Some(json) => Some(json@),
                None => None,
            },
            replies@,
        ),
{
    let domain = match find_pair(env, "SHOPIFY_SHOP_DOMAIN") {
        Some(domain) => domain,
        None => {
            return Step::Done(Err(McpShopifyError::MissingShopifyDomain));
        },
    };
    let token = match find_pair(env, "SHOPIFY_ACCESS_TOKEN") {
        Some(token) => token,
        None => {
            return Step::Done(Err(McpShopifyError::MissingShopifyAccessToken));
        },
    };
    let mut url = concat("https://", domain.as_str());
    url.append(path);
    let mut headers = no_pairs();
    push_pair(&mut headers, "X-Shopify-Access-Token", token.as_str());
    if declares_json {
        push_pair(&mut headers, "Content-Type", "application/json");
    }
    proof {
        assert(pairs_view(headers@) =~= admin_request(
            domain@,
            token@,
            method,
            path@,
            declares_json,
            None,
        ).headers);
    }
    let request = HttpRequest { method, url, query: no_pairs(), headers, body };
    match exchange(request, replies, 0) {
        Exchange::Ask(effect) => Step::Perform(effect),
        Exchange::Failed(message) => Step::Done(Err(McpShopifyError::HttpError(message))),
        Exchange::Reply { status, status_line, body } => {
            if status_is_success(status) {
                Step::Done(Ok(ContentEnvelope::single(ToolResponseContent::text(body.clone()))))
            } else {
                Step::Done(Err(McpShopifyError::ApiError(body.clone())))
            }
        },
    }
}

/// The path of the thing `id` among the things of kind `kind`, such as
/// the orders or the products.
pub open spec fn thing_path(kind: Seq<char>, id: Seq<char>) -> Seq<char> {
    "/admin/api/2022-04/"@ + kind + "/"@ + id + ".json"@
}

/// The path of the thing `id` among the things of kind `kind`.
pub fn path_of(kind: &str, id: &str) -> (path: String)
    ensures
        path@ == thing_path(kind@, id@),
{
    let mut path = concat("/admin/api/2022-04/", kind);
    path.append("/");
    path.append(id);
    path.append(".json");
    path
}

} // verus!
