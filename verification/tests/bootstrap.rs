use mcp_servers::bootstrap::{
    bootstrap, protocol_of, select_server, BootstrapError, ServerType, TransportType,
};
use mcp_servers::registry::{ParamKind, Registry, RegistryError, ServerCapabilities};
use mcp_servers::servers::arvix::server::ArxivTool;
use mcp_servers::servers::discord::server::DiscordTool;
use mcp_servers::servers::huggingface::server::HuggingFaceTool;
use mcp_servers::servers::replicate::server::ReplicateTool;
use mcp_servers::servers::shopify::server::ShopifyTool;
use mcp_servers::servers::tool::Tool;
use mcp_servers::servers::twitter::server::TwitterTool;

fn tool_names(registry: &Registry<Tool>) -> Vec<String> {
    registry.tools().iter().map(|descriptor| descriptor.name.clone()).collect()
}

fn all_servers() -> Vec<ServerType> {
    vec![
        ServerType::Arxiv,
        ServerType::Twitter,
        ServerType::Discord,
        ServerType::Shopify,
        ServerType::HuggingFace,
        ServerType::Replicate,
    ]
}

#[test]
fn no_server_selected_is_fatal() {
    assert_eq!(select_server(None, &all_servers()), Err(BootstrapError::NoServerSelected));
    assert_eq!(select_server(None, &vec![]), Err(BootstrapError::NoServerSelected));
    assert!(matches!(bootstrap(None, &all_servers()), Err(BootstrapError::NoServerSelected)));
}

#[test]
fn server_that_is_not_built_in_is_fatal() {
    assert_eq!(
        select_server(Some(ServerType::Discord), &vec![]),
        Err(BootstrapError::FeatureNotEnabled(ServerType::Discord))
    );
    assert_eq!(
        select_server(Some(ServerType::Discord), &vec![ServerType::Arxiv, ServerType::Twitter]),
        Err(BootstrapError::FeatureNotEnabled(ServerType::Discord))
    );
    assert_eq!(
        select_server(Some(ServerType::Twitter), &vec![ServerType::Arxiv, ServerType::Twitter]),
        Ok(ServerType::Twitter)
    );
    assert!(matches!(
        bootstrap(Some(ServerType::Shopify), &vec![ServerType::Replicate]),
        Err(BootstrapError::FeatureNotEnabled(ServerType::Shopify))
    ));
    for server in all_servers() {
        assert_eq!(select_server(Some(server), &all_servers()), Ok(server));
    }
}

#[test]
fn bootstrap_builds_the_registry_of_the_selected_server() {
    let registry = bootstrap(Some(ServerType::Arxiv), &all_servers()).expect("starts");
    assert!(registry.is_frozen());
    assert_eq!(registry.server_name(), "Arvix");
    assert_eq!(registry.server_version(), "0.1.0");
    assert_eq!(
        registry.declared_capabilities(),
        ServerCapabilities {
            tools: true,
            prompts: false,
            resources: false,
            logging: false,
            experimental: false
        }
    );
    assert_eq!(
        tool_names(&registry),
        vec!["GetPaperById", "SearchPapers", "ListRecords", "SearchByAuthor", "ExtractPaperText"]
    );
}

#[test]
fn each_server_holds_its_tools_in_order() {
    let cases: Vec<(ServerType, &str, Vec<&str>)> = vec![
        (
            ServerType::Arxiv,
            "Arvix",
            vec!["GetPaperById", "SearchPapers", "ListRecords", "SearchByAuthor", "ExtractPaperText"],
        ),
        (
            ServerType::Discord,
            "Discord",
            vec!["AddReaction", "AssignRole", "GetChannelMessages", "PostDM", "PostMessage", "PostWebhook"],
        ),
        (
            ServerType::HuggingFace,
            "HuggingFace",
            vec!["SearchModels", "GetModelInfo", "GetModelSampleImages", "GetReadme", "WhoAmI"],
        ),
        (
            ServerType::Replicate,
            "Replicate",
            vec![
                "ListModels",
                "GenerateImage",
                "EditImage",
                "EditImageWithMask",
                "GetPrediction",
                "GetModelInfo",
                "WhoAmI",
            ],
        ),
        (
            ServerType::Shopify,
            "Shopify",
            vec![
                "CreateOrder",
                "CreateProduct",
                "DeleteOrder",
                "DeleteProduct",
                "GetOrder",
                "GetProduct",
                "ListCustomers",
                "UpdateProduct",
                "AddProductMedia",
            ],
        ),
        (ServerType::Twitter, "Twitter", vec!["GetTimeline", "PostTweet", "ReplyToTweet", "SearchTweets"]),
    ];
    for (server, name, tools) in cases {
        let mut registry = protocol_of(server);
        assert_eq!(registry.server_name(), name);
        assert_eq!(registry.server_version(), "0.1.0");
        assert!(registry.is_frozen());
        assert_eq!(tool_names(&registry), tools);
        for tool in &tools {
            assert_eq!(registry.lookup(tool).map(|d| d.name.clone()), Ok(tool.to_string()));
        }
        assert_eq!(registry.lookup("NoSuchTool").map(|d| d.handler), Err(RegistryError::ToolNotFound));
        let again = mcp_servers::registry::ToolDescriptor {
            name: "Another".to_string(),
            description: String::new(),
            parameters: vec![],
            handler: Tool::Arxiv(ArxivTool::GetPaperById),
        };
        assert_eq!(registry.register(again), Err(RegistryError::RegistryFrozen));
        assert_eq!(tool_names(&registry), tools);
    }
}

#[test]
fn descriptors_name_their_tool_and_its_parameters() {
    let registry = protocol_of(ServerType::Arxiv);
    let search = registry.lookup("SearchPapers").expect("registered");
    assert_eq!(search.handler, Tool::Arxiv(ArxivTool::SearchPapers));
    assert_eq!(search.description, "Search for papers on ArXiv using various criteria.");
    let declared: Vec<(String, ParamKind, bool)> =
        search.parameters.iter().map(|p| (p.name.clone(), p.kind, p.required)).collect();
    assert_eq!(
        declared,
        vec![
            ("query".to_string(), ParamKind::Text, true),
            ("start".to_string(), ParamKind::Unsigned32, false),
            ("max_results".to_string(), ParamKind::Unsigned32, false),
            ("sort_by".to_string(), ParamKind::Text, false),
            ("sort_order".to_string(), ParamKind::Text, false),
        ]
    );
    assert_eq!(search.parameters[1].description, "Starting index for results (default: 0)");

    let registry = protocol_of(ServerType::Twitter);
    let reply = registry.lookup("ReplyToTweet").expect("registered");
    assert_eq!(reply.handler, Tool::Twitter(TwitterTool::ReplyToTweet));
    let declared: Vec<(String, ParamKind, bool)> =
        reply.parameters.iter().map(|p| (p.name.clone(), p.kind, p.required)).collect();
    assert_eq!(
        declared,
        vec![
            ("reply".to_string(), ParamKind::Text, true),
            ("reply_to_tweet_id".to_string(), ParamKind::Number, true),
        ]
    );

    let registry = protocol_of(ServerType::Shopify);
    let order = registry.lookup("CreateOrder").expect("registered");
    assert_eq!(order.handler, Tool::Shopify(ShopifyTool::CreateOrder));
    assert_eq!(order.parameters[0].kind, ParamKind::List);
    assert!(registry.lookup("ListCustomers").expect("registered").parameters.is_empty());

    let registry = protocol_of(ServerType::Replicate);
    assert_eq!(
        registry.lookup("GetModelInfo").map(|d| d.handler),
        Ok(Tool::Replicate(ReplicateTool::GetModelInfo))
    );
    let registry = protocol_of(ServerType::HuggingFace);
    assert_eq!(
        registry.lookup("GetModelInfo").map(|d| d.handler),
        Ok(Tool::HuggingFace(HuggingFaceTool::GetModelInfo))
    );
    assert_eq!(
        registry.lookup("SearchModels").expect("registered").description,
        "Search for HuggingFace models matching a keyword (filtered to text\u{2011}to\u{2011}image)."
    );
    let registry = protocol_of(ServerType::Discord);
    assert_eq!(
        registry.lookup("PostDM").map(|d| d.handler),
        Ok(Tool::Discord(DiscordTool::PostDm))
    );
    assert_eq!(
        registry.lookup("AddReaction").expect("registered").parameters[2].description,
        "Emoji to add as a reaction (e.g., \u{1f44d})"
    );
}

#[test]
fn transports_are_two() {
    assert_ne!(TransportType::Sse, TransportType::Stdio);
}
