//! The tool that deletes an order.

use vstd::prelude::*;
use crate::effect::{HttpMethod, Outcome, Pair, Step};
use crate::servers::shopify::admin::{admin_step, call_admin, path_of, thing_path};
use crate::servers::shopify::errors::McpShopifyError;

verus! {

/// What `delete_order_tool` does, given the environment and the answers so far:
/// one request for the thing `order_id`.
pub open spec fn delete_order_step(
    step: Step<McpShopifyError>,
    env: Seq<Pair>,
    order_id: Seq<char>,
    replies: Seq<Outcome>,
) -> bool {
    admin_step(step, env, HttpMethod::Delete, thing_path("orders"@, order_id), false, None, replies)
}

/// Deletes the order `order_id`: the next thing to ask for, or the result, given the
/// answers so far.
pub fn delete_order_tool(env: &Vec<Pair>, order_id: &str, replies: &Vec<Outcome>) -> (step: Step<
    McpShopifyError,
>)
    ensures
        delete_order_step(step, env@, order_id@, replies@),
{
    let path = path_of("orders", order_id);
    call_admin(env, HttpMethod::Delete, path.as_str(), false, None, replies)
}

} // verus!
