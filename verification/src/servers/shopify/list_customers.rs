//! The tool that lists the customers of the shop.

use vstd::prelude::*;
use crate::effect::{HttpMethod, Outcome, Pair, Step};
use crate::servers::shopify::admin::{admin_step, call_admin};
use crate::servers::shopify::errors::McpShopifyError;

verus! {

/// What `list_customers_tool` does, given the environment and the answers
/// so far: one request for the customers.
pub open spec fn list_customers_step(
    step: Step<McpShopifyError>,
    env: Seq<Pair>,
    replies: Seq<Outcome>,
) -> bool {
    admin_step(
        step,
        env,
        HttpMethod::Get,
        "/admin/api/2022-04/customers.json"@,
        false,
        None,
        replies,
    )
}

/// Lists the customers of the shop: the next thing to ask for, or the
/// result, given the answers so far.
pub fn list_customers_tool(env: &Vec<Pair>, replies: &Vec<Outcome>) -> (step: Step<McpShopifyError>)
    ensures
        list_customers_step(step, env@, replies@),
{
    call_admin(env, HttpMethod::Get, "/admin/api/2022-04/customers.json", false, None, replies)
}

} // verus!
