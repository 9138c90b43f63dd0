//! The tool that creates an order.

use vstd::prelude::*;
use crate::effect::{HttpMethod, Outcome, Pair, Step};
use crate::json::{Json, JsonView};
use crate::servers::shopify::admin::{admin_step, call_admin};
use crate::servers::shopify::errors::McpShopifyError;
use crate::text::{optional_view, strings_view};

verus! {

/// The line items of an order: each item as it was given, as JSON text.
pub open spec fn line_items_value(line_items: Seq<Seq<char>>) -> JsonView {
    JsonView::List(Seq::new(line_items.len(), |i: int| JsonView::Raw(line_items[i])))
}

/// The customer of an order: an object with the ID of the customer, or
/// `null` where there is none.
pub open spec fn customer_value(customer_id: Option<Seq<char>>) -> JsonView {
    match customer_id {
        Some(id) => JsonView::Object(seq![("id"@, JsonView::Text(id))]),
        None => JsonView::Null,
    }
}

/// What is sent to create an order: its line items and its customer.
pub open spec fn new_order(line_items: Seq<Seq<char>>, customer_id: Option<Seq<char>>) -> JsonView {
    JsonView::Object(
        seq![
            (
                "order"@,
                JsonView::Object(
                    seq![
                        ("line_items"@, line_items_value(line_items)),
                        ("customer"@, customer_value(customer_id)),
                    ],
                ),
            ),
        ],
    )
}

/// The line items of an order.
pub fn line_items_of(line_items: &Vec<String>) -> (json: Json)
    ensures
        json@ == line_items_value(strings_view(line_items@)),
{
    let mut items: Vec<Json> = Vec::new();
    let mut i: usize = 0;
    while i < line_items.len()
        invariant
            i <= line_items.len(),
            items@.len() == i,
            forall|k: int| 0 <= k < i ==> (#[trigger] items@[k])@ == JsonView::Raw(line_items@[k]@),
        decreases line_items.len() - i,
    {
        items.push(Json::Raw(line_items[i].clone()));
        i += 1;
    }
    let json = Json::List(items);
    proof {
        assert(json@->List_0 =~= line_items_value(strings_view(line_items@))->List_0);
    }
    json
}

/// What `create_order_tool` does, given the environment and the answers so
/// far: one request that posts the new order.
pub open spec fn create_order_step(
    step: Step<McpShopifyError>,
    env: Seq<Pair>,
    line_items: Seq<Seq<char>>,
    customer_id: Option<Seq<char>>,
    replies: Seq<Outcome>,
) -> bool {
    admin_step(
        step,
        env,
        HttpMethod::Post,
        "/admin/api/2022-04/orders.json"@,
        false,
        Some(new_order(line_items, customer_id)),
        replies,
    )
}

/// Creates an order of `line_items` for the customer `customer_id`: the
/// next thing to ask for, or the result, given the answers so far.
pub fn create_order_tool(
    env: &Vec<Pair>,
    line_items: &Vec<String>,
    customer_id: Option<&str>,
    replies: &Vec<Outcome>,
) -> (step: Step<McpShopifyError>)
    ensures
        create_order_step(
            step,
            env@,
            strings_view(line_items@),
            optional_view(customer_id),
            replies@,
        ),
{
    let customer = match customer_id {
        Some(id) => {
            let customer = Json::object().with("id", Json::text(id));
            proof {
                assert(customer@->Object_0 =~= seq![("id"@, JsonView::Text(id@))]);
            }
            customer
        },
        None => Json::Null,
    };
    let order = Json::object().with("line_items", line_items_of(line_items)).with(
        "customer",
        customer,
    );
    let body = Json::object().with("order", order);
    proof {
        let expected = new_order(
            strings_view(line_items@),
            optional_view(customer_id),
        );
        assert(order@->Object_0 =~= expected->Object_0[0].1->Object_0);
        assert(body@->Object_0 =~= expected->Object_0);
    }
    call_admin(env, HttpMethod::Post, "/admin/api/2022-04/orders.json", false, Some(body), replies)
}

} // verus!
