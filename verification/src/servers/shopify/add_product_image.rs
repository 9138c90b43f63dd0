//! The tool that attaches an image to a product.

use vstd::prelude::*;
use crate::effect::{HttpMethod, Outcome, Pair, Step};
use crate::json::{Json, JsonView};
use crate::servers::shopify::admin::{admin_step, call_admin};
use crate::servers::shopify::errors::McpShopifyError;

verus! {

/// The GraphQL mutation that attaches media to a product.
pub const MEDIA_MUTATION: &'static str = "
        mutation productCreateMedia($media: [CreateMediaInput!]!, $productId: ID!) {
            productCreateMedia(media: $media, productId: $productId) {
                media {
                    alt
                    mediaContentType
                    status
                }
                mediaUserErrors {
                    field
                    message
                }
                product {
                    id
                    title
                }
            }
        }
    ";

/// What is sent to attach the image at `image_url` to the product
/// `product_id`: the mutation, and as its variables the product and the
/// image with its alternative text.
pub open spec fn media_request(
    product_id: Seq<char>,
    image_url: Seq<char>,
    image_alt: Seq<char>,
) -> JsonView {
    JsonView::Object(
        seq![
            ("query"@, JsonView::Text(MEDIA_MUTATION@)),
            (
                "variables"@,
                JsonView::Object(
                    seq![
                        ("productId"@, JsonView::Text(product_id)),
                        (
                            "media"@,
                            JsonView::List(
                                seq![
                                    JsonView::Object(
                                        seq![
                                            ("alt"@, JsonView::Text(image_alt)),
                                            ("mediaContentType"@, JsonView::Text("IMAGE"@)),
                                            ("originalSource"@, JsonView::Text(image_url)),
                                        ],
                                    ),
                                ],
                            ),
                        ),
                    ],
                ),
            ),
        ],
    )
}

/// What `add_product_image_tool` does, given the environment and the
/// answers so far: one request that posts the mutation.
pub open spec fn add_product_image_step(
    step: Step<McpShopifyError>,
    env: Seq<Pair>,
    product_id: Seq<char>,
    image_url: Seq<char>,
    image_alt: Seq<char>,
    replies: Seq<Outcome>,
) -> bool {
    admin_step(
        step,
        env,
        HttpMethod::Post,
        "/admin/api/2025-04/graphql.json"@,
        true,
        Some(media_request(product_id, image_url, image_alt)),
        replies,
    )
}

/// Attaches the image at `image_url` to the product `product_id`: the
/// next thing to ask for, or the result, given the answers so far.
pub fn add_product_image_tool(
    env: &Vec<Pair>,
    product_id: &str,
    image_url: &str,
    image_alt: &str,
    replies: &Vec<Outcome>,
) -> (step: Step<McpShopifyError>)
    ensures
        add_product_image_step(step, env@, product_id@, image_url@, image_alt@, replies@),
{
    let medium = Json::object().with("alt", Json::text(image_alt)).with(
        "mediaContentType",
        Json::text("IMAGE"),
    ).with("originalSource", Json::text(image_url));
    proof {
        assert(medium@->Object_0 =~= seq![
            ("alt"@, JsonView::Text(image_alt@)),
            ("mediaContentType"@, JsonView::Text("IMAGE"@)),
            ("originalSource"@, JsonView::Text(image_url@)),
        ]);
    }
    let variables = Json::object().with("productId", Json::text(product_id)).with(
        "media",
        Json::list_of(medium),
    );
    let body = Json::object().with("query", Json::text(MEDIA_MUTATION)).with(
        "variables",
        variables,
    );
    proof {
        let expected = media_request(product_id@, image_url@, image_alt@);
        assert(variables@->Object_0 =~= expected->Object_0[1].1->Object_0);
        assert(body@->Object_0 =~= expected->Object_0);
    }
    call_admin(env, HttpMethod::Post, "/admin/api/2025-04/graphql.json", true, Some(body), replies)
}

} // verus!
