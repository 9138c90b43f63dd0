//! The tool that deletes a product.

use vstd::prelude::*;
use crate::effect::{HttpMethod, Outcome, Pair, Step};
use crate::servers::shopify::admin::{admin_step, call_admin, path_of, thing_path};
use crate::servers::shopify::errors::McpShopifyError;

verus! {

/// What `delete_product_tool` does, given the environment and the answers so far:
/// one request for the thing `product_id`.
pub open spec fn delete_product_step(
    step: Step<McpShopifyError>,
    env: Seq<Pair>,
    product_id: Seq<char>,
    replies: Seq<Outcome>,
) -> bool {
    admin_step(step, env, HttpMethod::Delete, thing_path("products"@, product_id), false, None, replies)
}

/// Deletes the product `product_id`: the next thing to ask for, or the result, given the
/// answers so far.
pub fn delete_product_tool(env: &Vec<Pair>, product_id: &str, replies: &Vec<Outcome>) -> (step: Step<
    McpShopifyError,
>)
    ensures
        delete_product_step(step, env@, product_id@, replies@),
{
    let path = path_of("products", product_id);
    call_admin(env, HttpMethod::Delete, path.as_str(), false, None, replies)
}

} // verus!
