//! The tool that fetches a product.

use vstd::prelude::*;
use crate::effect::{HttpMethod, Outcome, Pair, Step};
use crate::servers::shopify::admin::{admin_step, call_admin, path_of, thing_path};
use crate::servers::shopify::errors::McpShopifyError;

verus! {

/// What `get_product_tool` does, given the environment and the answers so far:
/// one request for the thing `product_id`.
pub open spec fn get_product_step(
    step: Step<McpShopifyError>,
    env: Seq<Pair>,
    product_id: Seq<char>,
    replies: Seq<Outcome>,
) -> bool {
    admin_step(step, env, HttpMethod::Get, thing_path("products"@, product_id), false, None, replies)
}

/// Fetches the product `product_id`: the next thing to ask for, or the result, given the
/// answers so far.
pub fn get_product_tool(env: &Vec<Pair>, product_id: &str, replies: &Vec<Outcome>) -> (step: Step<
    McpShopifyError,
>)
    ensures
        get_product_step(step, env@, product_id@, replies@),
{
    let path = path_of("products", product_id);
    call_admin(env, HttpMethod::Get, path.as_str(), false, None, replies)
}

} // verus!
