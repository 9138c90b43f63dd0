//! The Shopify server: its tools, what a registry holds for each of them,
//! and how a call reaches the tool.

use vstd::prelude::*;
use crate::content::NormalizedError;
use crate::dispatch::{list_arg, list_argument, text_arg, text_argument, Argument};
use crate::effect::{Outcome, Pair, Step, MOST_EFFECTS};
use crate::registry::{
    no_params, param_views, push_param, ParamKind, ParamView, Registry, ServerCapabilities,
    ToolDescriptor,
};
use crate::servers::shopify::add_product_image::{add_product_image_step, add_product_image_tool};
use crate::servers::shopify::create_order::{create_order_step, create_order_tool};
use crate::servers::shopify::create_product::{create_product_step, create_product_tool};
use crate::servers::shopify::delete_order::{delete_order_step, delete_order_tool};
use crate::servers::shopify::delete_product::{delete_product_step, delete_product_tool};
use crate::servers::shopify::errors::McpShopifyError;
use crate::servers::shopify::get_order::{get_order_step, get_order_tool};
use crate::servers::shopify::get_product::{get_product_step, get_product_tool};
use crate::servers::shopify::list_customers::{list_customers_step, list_customers_tool};
use crate::servers::shopify::update_product::{update_product_step, update_product_tool};
use crate::servers::tool::{catalog, describes, normalized, reject, rejects, Tool};
use crate::text::strings_view;

verus! {

/// The tools of the Shopify server.
#[derive(Clone, Copy, Debug, PartialEq, Eq, Structural)]
pub enum ShopifyTool {
    CreateOrder,
    CreateProduct,
    DeleteOrder,
    DeleteProduct,
    GetOrder,
    GetProduct,
    ListCustomers,
    UpdateProduct,
    AddProductMedia,
}

/// The name under which `tool` is registered.
pub open spec fn tool_name(tool: ShopifyTool) -> Seq<char> {
    match tool {
        ShopifyTool::CreateOrder => "CreateOrder"@,
        ShopifyTool::CreateProduct => "CreateProduct"@,
        ShopifyTool::DeleteOrder => "DeleteOrder"@,
        ShopifyTool::DeleteProduct => "DeleteProduct"@,
        ShopifyTool::GetOrder => "GetOrder"@,
        ShopifyTool::GetProduct => "GetProduct"@,
        ShopifyTool::ListCustomers => "ListCustomers"@,
        ShopifyTool::UpdateProduct => "UpdateProduct"@,
        ShopifyTool::AddProductMedia => "AddProductMedia"@,
    }
}

/// What `tool` is said to do.
pub open spec fn tool_description(tool: ShopifyTool) -> Seq<char> {
    match tool {
        ShopifyTool::CreateOrder => "Create a new order in the Shopify store."@,
        ShopifyTool::CreateProduct => "Create a new product in the Shopify store."@,
        ShopifyTool::DeleteOrder => "Delete an order from the Shopify store."@,
        ShopifyTool::DeleteProduct => "Delete a product from the Shopify store."@,
        ShopifyTool::GetOrder => "Retrieve details of a specific order by its ID."@,
        ShopifyTool::GetProduct => "Fetch details of a specific product."@,
        ShopifyTool::ListCustomers => "List all customers in the Shopify store."@,
        ShopifyTool::UpdateProduct => "Update an existing product in the Shopify store."@,
        ShopifyTool::AddProductMedia =>
            "Attach media (images, videos, or models) to an existing Shopify product using GraphQL."@,
    }
}

/// The parameters that `tool` declares, in the order of their declaration.
pub open spec fn tool_parameters(tool: ShopifyTool) -> Seq<ParamView> {
    match tool {
        ShopifyTool::CreateOrder => seq![
            ParamView {
                name: "line_items"@,
                description: "List of products in the order"@,
                kind: ParamKind::List,
                required: true,
            },
            ParamView {
                name: "customer_id"@,
                description: "ID of the customer"@,
                kind: ParamKind::Text,
                required: false,
            },
        ],
        ShopifyTool::CreateProduct => seq![
            ParamView {
                name: "title"@,
                description: "Title of the product"@,
                kind: ParamKind::Text,
                required: true,
            },
            ParamView {
                name: "body_html"@,
                description: "Product description"@,
                kind: ParamKind::Text,
                required: false,
            },
            ParamView {
                name: "vendor"@,
                description: "Product vendor"@,
                kind: ParamKind::Text,
                required: false,
            },
            ParamView {
                name: "product_type"@,
                description: "Type of the product"@,
                kind: ParamKind::Text,
                required: false,
            },
            ParamView {
                name: "price"@,
                description: "Price of the product"@,
                kind: ParamKind::Text,
                required: false,
            },
            ParamView {
                name: "image_url"@,
                description: "URL of the product image"@,
                kind: ParamKind::Text,
                required: false,
            },
        ],
        ShopifyTool::DeleteOrder => seq![
            ParamView {
                name: "order_id"@,
                description: "ID of the order to delete"@,
                kind: ParamKind::Text,
                required: true,
            },
        ],
        ShopifyTool::DeleteProduct => seq![
            ParamView {
                name: "product_id"@,
                description: "ID of the product to delete"@,
                kind: ParamKind::Text,
                required: true,
            },
        ],
        ShopifyTool::GetOrder => seq![
            ParamView {
                name: "order_id"@,
                description: "ID of the order to retrieve"@,
                kind: ParamKind::Text,
                required: true,
            },
        ],
        ShopifyTool::GetProduct => seq![
            ParamView {
                name: "product_id"@,
                description: "ID of the product to retrieve"@,
                kind: ParamKind::Text,
                required: true,
            },
        ],
        ShopifyTool::ListCustomers => Seq::empty(),
        ShopifyTool::UpdateProduct => seq![
            ParamView {
                name: "product_id"@,
                description: "ID of the product to update"@,
                kind: ParamKind::Text,
                required: true,
            },
            ParamView {
                name: "title"@,
                description: "New title for the product"@,
                kind: ParamKind::Text,
                required: true,
            },
            ParamView {
                name: "body_html"@,
                description: "New product description"@,
                kind: ParamKind::Text,
                required: false,
            },
            ParamView {
                name: "vendor"@,
                description: "New product vendor"@,
                kind: ParamKind::Text,
                required: false,
            },
            ParamView {
                name: "product_type"@,
                description: "New type of the product"@,
                kind: ParamKind::Text,
                required: false,
            },
            ParamView {
                name: "price"@,
                description: "New price of the product"@,
                kind: ParamKind::Text,
                required: false,
            },
        ],
        ShopifyTool::AddProductMedia => seq![
            ParamView {
                name: "product_id"@,
                description: "The Shopify product GID (e.g., gid://shopify/Product/1234567890)."@,
                kind: ParamKind::Text,
                required: true,
            },
            ParamView {
                name: "image_url"@,
                description: "URL of the product image"@,
                kind: ParamKind::Text,
                required: true,
            },
            ParamView {
                name: "image_alt"@,
                description: "Alt text for the image"@,
                kind: ParamKind::Text,
                required: true,
            },
        ],
    }
}

/// The tools of the Shopify server, in the order of their registration.
pub open spec fn tools() -> Seq<Tool> {
    seq![
        Tool::Shopify(ShopifyTool::CreateOrder),
        Tool::Shopify(ShopifyTool::CreateProduct),
        Tool::Shopify(ShopifyTool::DeleteOrder),
        Tool::Shopify(ShopifyTool::DeleteProduct),
        Tool::Shopify(ShopifyTool::GetOrder),
        Tool::Shopify(ShopifyTool::GetProduct),
        Tool::Shopify(ShopifyTool::ListCustomers),
        Tool::Shopify(ShopifyTool::UpdateProduct),
        Tool::Shopify(ShopifyTool::AddProductMedia),
    ]
}

/// Every tool has a name, and no two tools share one.
pub proof fn lemma_tool_names_differ(a: ShopifyTool, b: ShopifyTool)
    ensures
        tool_name(a).len() > 0,
        a != b ==> tool_name(a) != tool_name(b),
{
    reveal_strlit("CreateOrder");
    reveal_strlit("CreateProduct");
    reveal_strlit("DeleteOrder");
    reveal_strlit("DeleteProduct");
    reveal_strlit("GetOrder");
    reveal_strlit("GetProduct");
    reveal_strlit("ListCustomers");
    reveal_strlit("UpdateProduct");
    reveal_strlit("AddProductMedia");
    assert("CreateOrder"@[0] != "DeleteOrder"@[0]);
    assert("CreateProduct"@[0] != "DeleteProduct"@[0]);
    assert("CreateProduct"@[0] != "ListCustomers"@[0]);
    assert("CreateProduct"@[0] != "UpdateProduct"@[0]);
    assert("DeleteProduct"@[0] != "ListCustomers"@[0]);
    assert("DeleteProduct"@[0] != "UpdateProduct"@[0]);
    assert("ListCustomers"@[0] != "UpdateProduct"@[0]);
}

/// What a registry holds for `tool`.
pub fn descriptor(tool: ShopifyTool) -> (descriptor: ToolDescriptor<Tool>)
    ensures
        describes(descriptor, Tool::Shopify(tool)),
{
    let mut parameters = no_params();
    let (name, description) = match tool {
        ShopifyTool::CreateOrder => {
            push_param(
                &mut parameters,
                "line_items",
                "List of products in the order",
                ParamKind::List,
                true,
            );
            push_param(
                &mut parameters,
                "customer_id",
                "ID of the customer",
                ParamKind::Text,
                false,
            );
            ("CreateOrder", "Create a new order in the Shopify store.")
        },
        ShopifyTool::CreateProduct => {
            push_param(&mut parameters, "title", "Title of the product", ParamKind::Text, true);
            push_param(&mut parameters, "body_html", "Product description", ParamKind::Text, false);
            push_param(&mut parameters, "vendor", "Product vendor", ParamKind::Text, false);
            push_param(
                &mut parameters,
                "product_type",
                "Type of the product",
                ParamKind::Text,
                false,
            );
            push_param(&mut parameters, "price", "Price of the product", ParamKind::Text, false);
            push_param(
                &mut parameters,
                "image_url",
                "URL of the product image",
                ParamKind::Text,
                false,
            );
            ("CreateProduct", "Create a new product in the Shopify store.")
        },
        ShopifyTool::DeleteOrder => {
            push_param(
                &mut parameters,
                "order_id",
                "ID of the order to delete",
                ParamKind::Text,
                true,
            );
            ("DeleteOrder", "Delete an order from the Shopify store.")
        },
        ShopifyTool::DeleteProduct => {
            push_param(
                &mut parameters,
                "product_id",
                "ID of the product to delete",
                ParamKind::Text,
                true,
            );
            ("DeleteProduct", "Delete a product from the Shopify store.")
        },
        ShopifyTool::GetOrder => {
            push_param(
                &mut parameters,
                "order_id",
                "ID of the order to retrieve",
                ParamKind::Text,
                true,
            );
            ("GetOrder", "Retrieve details of a specific order by its ID.")
        },
        ShopifyTool::GetProduct => {
            push_param(
                &mut parameters,
                "product_id",
                "ID of the product to retrieve",
                ParamKind::Text,
                true,
            );
            ("GetProduct", "Fetch details of a specific product.")
        },
        ShopifyTool::ListCustomers => {
            ("ListCustomers", "List all customers in the Shopify store.")
        },
        ShopifyTool::UpdateProduct => {
            push_param(
                &mut parameters,
                "product_id",
                "ID of the product to update",
                ParamKind::Text,
                true,
            );
            push_param(
                &mut parameters,
                "title",
                "New title for the product",
                ParamKind::Text,
                true,
            );
            push_param(
                &mut parameters,
                "body_html",
                "New product description",
                ParamKind::Text,
                false,
            );
            push_param(&mut parameters, "vendor", "New product vendor", ParamKind::Text, false);
            push_param(
                &mut parameters,
                "product_type",
                "New type of the product",
                ParamKind::Text,
                false,
            );
            push_param(
                &mut parameters,
                "price",
                "New price of the product",
                ParamKind::Text,
                false,
            );
            ("UpdateProduct", "Update an existing product in the Shopify store.")
        },
        ShopifyTool::AddProductMedia => {
            push_param(
                &mut parameters,
                "product_id",
                "The Shopify product GID (e.g., gid://shopify/Product/1234567890).",
                ParamKind::Text,
                true,
            );
            push_param(
                &mut parameters,
                "image_url",
                "URL of the product image",
                ParamKind::Text,
                true,
            );
            push_param(
                &mut parameters,
                "image_alt",
                "Alt text for the image",
                ParamKind::Text,
                true,
            );
            (
                "AddProductMedia",
                "Attach media (images, videos, or models) to an existing Shopify product using GraphQL.",
            )
        },
    };
    proof {
        assert(param_views(parameters@) =~= tool_parameters(tool));
    }
    ToolDescriptor {
        name: String::from_str(name),
        description: String::from_str(description),
        parameters,
        handler: Tool::Shopify(tool),
    }
}

/// The registry of the Shopify server: named `Shopify`, in version 0.1.0,
/// declaring tools and nothing else, holding its tools in the order of
/// `tools`, and built.
pub fn protocol() -> (registry: Registry<Tool>)
    ensures
        registry@.server_name == "Shopify"@,
        registry@.server_version == "0.1.0"@,
        registry@.capabilities == (ServerCapabilities {
            tools: true,
            prompts: false,
            resources: false,
            logging: false,
            experimental: false,
        }),
        registry@.frozen,
        registry@.wf(),
        catalog(registry@.tools, tools()),
{
    let mut registry: Registry<Tool> = Registry::new(
        String::from_str("Shopify"),
        String::from_str("0.1.0"),
    ).capabilities(
        ServerCapabilities {
            tools: true,
            prompts: false,
            resources: false,
            logging: false,
            experimental: false,
        },
    );
    proof {
        assert forall|a: ShopifyTool, b: ShopifyTool|
            tool_name(a).len() > 0 && (a != b ==> #[trigger] tool_name(a) != #[trigger] tool_name(
                b,
            )) by {
            lemma_tool_names_differ(a, b);
        }
    }
    let _ = registry.register(descriptor(ShopifyTool::CreateOrder));
    let _ = registry.register(descriptor(ShopifyTool::CreateProduct));
    let _ = registry.register(descriptor(ShopifyTool::DeleteOrder));
    let _ = registry.register(descriptor(ShopifyTool::DeleteProduct));
    let _ = registry.register(descriptor(ShopifyTool::GetOrder));
    let _ = registry.register(descriptor(ShopifyTool::GetProduct));
    let _ = registry.register(descriptor(ShopifyTool::ListCustomers));
    let _ = registry.register(descriptor(ShopifyTool::UpdateProduct));
    let _ = registry.register(descriptor(ShopifyTool::AddProductMedia));
    registry.build()
}

/// What a call of `tool` does, given the arguments and the answers so
/// far. It fails with the first required argument that is missing or has
/// the wrong shape; an optional argument of the wrong shape counts as not
/// given. Else it does what the tool does, with the failure of the tool, if
/// it ends in one, in the uniform shape.
pub open spec fn call_step(
    step: Step<NormalizedError>,
    tool: ShopifyTool,
    env: Seq<Pair>,
    arguments: Seq<Argument>,
    replies: Seq<Outcome>,
) -> bool {
    match tool {
        ShopifyTool::CreateOrder => match list_argument(arguments, "line_items"@) {
            None => rejects(step, "line_items"@),
            Some(line_items) => exists|inner: Step<McpShopifyError>|
                #[trigger] normalized(step, inner)
                && create_order_step(
                    inner,
                    env,
                    strings_view(line_items),
                    text_argument(arguments, "customer_id"@),
                    replies,
                ),
        },
        ShopifyTool::CreateProduct => match text_argument(arguments, "title"@) {
            None => rejects(step, "title"@),
            Some(title) => exists|inner: Step<McpShopifyError>|
                #[trigger] normalized(step, inner)
                && create_product_step(
                    inner,
                    env,
                    title,
                    text_argument(arguments, "body_html"@),
                    text_argument(arguments, "vendor"@),
                    text_argument(arguments, "product_type"@),
                    text_argument(arguments, "price"@),
                    text_argument(arguments, "image_url"@),
                    replies,
                ),
        },
        ShopifyTool::DeleteOrder => match text_argument(arguments, "order_id"@) {
            None => rejects(step, "order_id"@),
            Some(order_id) => exists|inner: Step<McpShopifyError>|
                #[trigger] normalized(step, inner)
                && delete_order_step(inner, env, order_id, replies),
        },
        ShopifyTool::DeleteProduct => match text_argument(arguments, "product_id"@) {
            None => rejects(step, "product_id"@),
            Some(product_id) => exists|inner: Step<McpShopifyError>|
                #[trigger] normalized(step, inner)
                && delete_product_step(inner, env, product_id, replies),
        },
        ShopifyTool::GetOrder => match text_argument(arguments, "order_id"@) {
            None => rejects(step, "order_id"@),
            Some(order_id) => exists|inner: Step<McpShopifyError>|
                #[trigger] normalized(step, inner)
                && get_order_step(inner, env, order_id, replies),
        },
        ShopifyTool::GetProduct => match text_argument(arguments, "product_id"@) {
            None => rejects(step, "product_id"@),
            Some(product_id) => exists|inner: Step<McpShopifyError>|
                #[trigger] normalized(step, inner)
                && get_product_step(inner, env, product_id, replies),
        },
        ShopifyTool::ListCustomers => exists|inner: Step<McpShopifyError>|
            #[trigger] normalized(step, inner)
            && list_customers_step(inner, env, replies),
        ShopifyTool::UpdateProduct => match text_argument(arguments, "product_id"@) {
            None => rejects(step, "product_id"@),
            Some(product_id) => match text_argument(arguments, "title"@) {
                None => rejects(step, "title"@),
                Some(title) => exists|inner: Step<McpShopifyError>|
                    #[trigger] normalized(step, inner)
                    && update_product_step(
                        inner,
                        env,
                        product_id,
                        title,
                        text_argument(arguments, "body_html"@),
                        text_argument(arguments, "vendor"@),
                        text_argument(arguments, "product_type"@),
                        text_argument(arguments, "price"@),
                        replies,
                    ),
            },
        },
        ShopifyTool::AddProductMedia => match text_argument(arguments, "product_id"@) {
            None => rejects(step, "product_id"@),
            Some(product_id) => match text_argument(arguments, "image_url"@) {
                None => rejects(step, "image_url"@),
                Some(image_url) => match text_argument(arguments, "image_alt"@) {
                    None => rejects(step, "image_alt"@),
                    Some(image_alt) => exists|inner: Step<McpShopifyError>|
                        #[trigger] normalized(step, inner)
                        && add_product_image_step(
                            inner,
                            env,
                            product_id,
                            image_url,
                            image_alt,
                            replies,
                        ),
                },
            },
        },
    }
}

/// A call comes to its end: once as many answers are there as a tool asks
/// for at most, the call asks for nothing more.
pub proof fn lemma_call_ends(
    step: Step<NormalizedError>,
    tool: ShopifyTool,
    env: Seq<Pair>,
    arguments: Seq<Argument>,
    replies: Seq<Outcome>,
)
    requires
        call_step(step, tool, env, arguments, replies),
        replies.len() >= MOST_EFFECTS,
    ensures
        step is Done,
{
}

/// Calls `tool` with `arguments`: the next thing to ask for, or the
/// result, given the answers so far.
pub fn call(
    tool: ShopifyTool,
    env: &Vec<Pair>,
    arguments: &Vec<Argument>,
    replies: &Vec<Outcome>,
) -> (step: Step<NormalizedError>)
    ensures
        call_step(step, tool, env@, arguments@, replies@),
{
    match tool {
        ShopifyTool::CreateOrder => {
            let line_items = match list_arg(arguments, "line_items") {
                Some(value) => value,
                None => {
                    return reject("line_items");
                },
            };
            finish(create_order_tool(env, line_items, text_arg(arguments, "customer_id"), replies))
        },
        ShopifyTool::CreateProduct => {
            let title = match text_arg(arguments, "title") {
                Some(value) => value,
                None => {
                    return reject("title");
                },
            };
            finish(create_product_tool(
                env,
                title,
                text_arg(arguments, "body_html"),
                text_arg(arguments, "vendor"),
                text_arg(arguments, "product_type"),
                text_arg(arguments, "price"),
                text_arg(arguments, "image_url"),
                replies,
            ))
        },
        ShopifyTool::DeleteOrder => {
            let order_id = match text_arg(arguments, "order_id") {
                Some(value) => value,
                None => {
                    return reject("order_id");
                },
            };
            finish(delete_order_tool(env, order_id, replies))
        },
        ShopifyTool::DeleteProduct => {
            let product_id = match text_arg(arguments, "product_id") {
                Some(value) => value,
                None => {
                    return reject("product_id");
                },
            };
            finish(delete_product_tool(env, product_id, replies))
        },
        ShopifyTool::GetOrder => {
            let order_id = match text_arg(arguments, "order_id") {
                Some(value) => value,
                None => {
                    return reject("order_id");
                },
            };
            finish(get_order_tool(env, order_id, replies))
        },
        ShopifyTool::GetProduct => {
            let product_id = match text_arg(arguments, "product_id") {
                Some(value) => value,
                None => {
                    return reject("product_id");
                },
            };
            finish(get_product_tool(env, product_id, replies))
        },
        ShopifyTool::ListCustomers => {
            finish(list_customers_tool(env, replies))
        },
        ShopifyTool::UpdateProduct => {
            let product_id = match text_arg(arguments, "product_id") {
                Some(value) => value,
                None => {
                    return reject("product_id");
                },
            };
            let title = match text_arg(arguments, "title") {
                Some(value) => value,
                None => {
                    return reject("title");
                },
            };
            finish(update_product_tool(
                env,
                product_id,
                title,
                text_arg(arguments, "body_html"),
                text_arg(arguments, "vendor"),
                text_arg(arguments, "product_type"),
                text_arg(arguments, "price"),
                replies,
            ))
        },
        ShopifyTool::AddProductMedia => {
            let product_id = match text_arg(arguments, "product_id") {
                Some(value) => value,
                None => {
                    return reject("product_id");
                },
            };
            let image_url = match text_arg(arguments, "image_url") {
                Some(value) => value,
                None => {
                    return reject("image_url");
                },
            };
            let image_alt = match text_arg(arguments, "image_alt") {
                Some(value) => value,
                None => {
                    return reject("image_alt");
                },
            };
            finish(add_product_image_tool(env, product_id, image_url, image_alt, replies))
        },
    }
}

/// The step `inner` of a tool, with its failure, if it ends in one, in the
/// uniform shape.
fn finish(inner: Step<McpShopifyError>) -> (step: Step<NormalizedError>)
    ensures
        normalized(step, inner),
{
    match inner {
        Step::Perform(effect) => Step::Perform(effect),
        Step::Done(Ok(envelope)) => Step::Done(Ok(envelope)),
        Step::Done(Err(error)) => Step::Done(Err(error.normalize())),
    }
}

} // verus!
