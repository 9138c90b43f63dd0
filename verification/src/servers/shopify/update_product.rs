//! The tool that updates a product.

use vstd::prelude::*;
use crate::effect::{HttpMethod, Outcome, Pair, Step};
use crate::json::{text_or_null, Json, JsonView};
use crate::servers::shopify::admin::{admin_step, call_admin, path_of, thing_path};
use crate::servers::shopify::create_product::{variants, variants_of};
use crate::servers::shopify::errors::McpShopifyError;
use crate::text::optional_view;

verus! {

/// What is sent to update the product `product_id`: its ID, its title,
/// what else is known of it, and one variant with its price.
pub open spec fn updated_product(
    product_id: Seq<char>,
    title: Seq<char>,
    body_html: Option<Seq<char>>,
    vendor: Option<Seq<char>>,
    product_type: Option<Seq<char>>,
    price: Option<Seq<char>>,
) -> JsonView {
    JsonView::Object(
        seq![
            (
                "product"@,
                JsonView::Object(
                    seq![
                        ("id"@, JsonView::Text(product_id)),
                        ("title"@, JsonView::Text(title)),
                        ("body_html"@, text_or_null(body_html)),
                        ("vendor"@, text_or_null(vendor)),
                        ("product_type"@, text_or_null(product_type)),
                        ("variants"@, variants(price)),
                    ],
                ),
            ),
        ],
    )
}

/// What `update_product_tool` does, given the environment and the answers
/// so far: one request that puts the product as it shall be.
pub open spec fn update_product_step(
    step: Step<McpShopifyError>,
    env: Seq<Pair>,
    product_id: Seq<char>,
    title: Seq<char>,
    body_html: Option<Seq<char>>,
    vendor: Option<Seq<char>>,
    product_type: Option<Seq<char>>,
    price: Option<Seq<char>>,
    replies: Seq<Outcome>,
) -> bool {
    admin_step(
        step,
        env,
        HttpMethod::Put,
        thing_path("products"@, product_id),
        false,
        Some(updated_product(product_id, title, body_html, vendor, product_type, price)),
        replies,
    )
}

/// Updates the product `product_id`: the next thing to ask for, or the
/// result, given the answers so far.
pub fn update_product_tool(
    env: &Vec<Pair>,
    product_id: &str,
    title: &str,
    body_html: Option<&str>,
    vendor: Option<&str>,
    product_type: Option<&str>,
    price: Option<&str>,
    replies: &Vec<Outcome>,
) -> (step: Step<McpShopifyError>)
    ensures
        update_product_step(
            step,
            env@,
            product_id@,
            title@,
            optional_view(body_html),
            optional_view(vendor),
            optional_view(product_type),
            optional_view(price),
            replies@,
        ),
{
    let product = Json::object().with("id", Json::text(product_id)).with(
        "title",
        Json::text(title),
    ).with("body_html", Json::optional_text(body_html)).with(
        "vendor",
        Json::optional_text(vendor),
    ).with("product_type", Json::optional_text(product_type)).with("variants", variants_of(price));
    let body = Json::object().with("product", product);
    proof {
        let expected = updated_product(
            product_id@,
            title@,
            optional_view(body_html),
            optional_view(vendor),
            optional_view(product_type),
            optional_view(price),
        );
        assert(product@->Object_0 =~= expected->Object_0[0].1->Object_0);
        assert(body@->Object_0 =~= expected->Object_0);
    }
    let path = path_of("products", product_id);
    call_admin(env, HttpMethod::Put, path.as_str(), false, Some(body), replies)
}

} // verus!
