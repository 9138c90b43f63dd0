//! The tool that creates a product.

use vstd::prelude::*;
use crate::effect::{HttpMethod, Outcome, Pair, Step};
use crate::json::{text_or_null, Json, JsonView};
use crate::servers::shopify::admin::{admin_step, call_admin};
use crate::servers::shopify::errors::McpShopifyError;
use crate::text::optional_view;

verus! {

/// The one variant of a product, with its price.
pub open spec fn variants(price: Option<Seq<char>>) -> JsonView {
    JsonView::List(seq![JsonView::Object(seq![("price"@, text_or_null(price))])])
}

/// The one variant of a product, with its price.
pub fn variants_of(price: Option<&str>) -> (json: Json)
    ensures
        json@ == variants(optional_view(price)),
{
    let variant = Json::object().with("price", Json::optional_text(price));
    proof {
        assert(variant@->Object_0 =~= seq![("price"@, text_or_null(optional_view(price)))]);
    }
    Json::list_of(variant)
}

/// What is sent to create a product: its title, what else is known of it,
/// one variant with its price, and one image where there is one.
pub open spec fn new_product(
    title: Seq<char>,
    body_html: Option<Seq<char>>,
    vendor: Option<Seq<char>>,
    product_type: Option<Seq<char>>,
    price: Option<Seq<char>>,
    image_url: Option<Seq<char>>,
) -> JsonView {
    let described = seq![
        ("title"@, JsonView::Text(title)),
        ("body_html"@, text_or_null(body_html)),
        ("vendor"@, text_or_null(vendor)),
        ("product_type"@, text_or_null(product_type)),
        ("variants"@, variants(price)),
    ];
    JsonView::Object(
        seq![
            (
                "product"@,
                JsonView::Object(
                    match image_url {
                        Some(image) => described.push(
                            (
                                "images"@,
                                JsonView::List(
                                    seq![JsonView::Object(seq![("src"@, JsonView::Text(image))])],
                                ),
                            ),
                        ),
                        None => described,
                    },
                ),
            ),
        ],
    )
}

/// What `create_product_tool` does, given the environment and the answers
/// so far: one request that posts the new product.
pub open spec fn create_product_step(
    step: Step<McpShopifyError>,
    env: Seq<Pair>,
    title: Seq<char>,
    body_html: Option<Seq<char>>,
    vendor: Option<Seq<char>>,
    product_type: Option<Seq<char>>,
    price: Option<Seq<char>>,
    image_url: Option<Seq<char>>,
    replies: Seq<Outcome>,
) -> bool {
    admin_step(
        step,
        env,
        HttpMethod::Post,
        "/admin/api/2022-04/products.json"@,
        false,
        Some(new_product(title, body_html, vendor, product_type, price, image_url)),
        replies,
    )
}

/// Creates a product: the next thing to ask for, or the result, given the
/// answers so far.
pub fn create_product_tool(
    env: &Vec<Pair>,
    title: &str,
    body_html: Option<&str>,
    vendor: Option<&str>,
    product_type: Option<&str>,
    price: Option<&str>,
    image_url: Option<&str>,
    replies: &Vec<Outcome>,
) -> (step: Step<McpShopifyError>)
    ensures
        create_product_step(
            step,
            env@,
            title@,
            optional_view(body_html),
            optional_view(vendor),
            optional_view(product_type),
            optional_view(price),
            optional_view(image_url),
            replies@,
        ),
{
    let mut product = Json::object().with("title", Json::text(title)).with(
        "body_html",
        Json::optional_text(body_html),
    ).with("vendor", Json::optional_text(vendor)).with(
        "product_type",
        Json::optional_text(product_type),
    ).with("variants", variants_of(price));
    match image_url {
        Some(image) => {
            let picture = Json::object().with("src", Json::text(image));
            proof {
                assert(picture@->Object_0 =~= seq![("src"@, JsonView::Text(image@))]);
            }
            product = product.with("images", Json::list_of(picture));
        },
        None => {},
    }
    let body = Json::object().with("product", product);
    proof {
        let expected = new_product(
            title@,
            optional_view(body_html),
            optional_view(vendor),
            optional_view(product_type),
            optional_view(price),
            optional_view(image_url),
        );
        assert(product@->Object_0 =~= expected->Object_0[0].1->Object_0);
        assert(body@->Object_0 =~= expected->Object_0);
    }
    call_admin(
        env,
        HttpMethod::Post,
        "/admin/api/2022-04/products.json",
        false,
        Some(body),
        replies,
    )
}

} // verus!
