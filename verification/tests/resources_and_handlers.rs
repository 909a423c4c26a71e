use poet::mcp::accepts_all::accepts;
use poet::mcp::accepts_all::accepts_all;
use poet::mcp::accepts_all::Conclusion;
use poet::mcp::accepts_all::MimeType;
use poet::mcp::handler::initialized_handler::InitializedHandler;
use poet::mcp::handler::prompts_get_handler::PromptsGetHandler;
use poet::mcp::handler::prompts_list_handler::PromptsListHandler;
use poet::mcp::handler::resources_list_handler::ResourcesListHandler;
use poet::mcp::jsonrpc::id::Id;
use poet::mcp::jsonrpc::response::error::Error;
use poet::mcp::list_resources_cursor::ListResourcesCursor;
use poet::mcp::log_level::LogLevel;
use poet::mcp::mcp_responder_handler::McpResponderHandler;
use poet::mcp::mcp_responder_handler::ResponderAction;
use poet::mcp::name_index::NameIndex;
use poet::mcp::name_index::NameOrder;
use poet::mcp::prompt::Prompt;
use poet::mcp::prompt_controller::PromptController;
use poet::mcp::prompt_controller_collection::PromptControllerCollection;
use poet::mcp::resource_content::ResourceContent;
use poet::mcp::resource_provider_ordered::ResourceProviderOrdered;
use poet::mcp::resource_reference::ResourceReference;
use poet::mcp::resource_reference::ResourceReferenceError;
use poet::mcp::resource_reference::UriParts;
use poet::mcp_resource_provider_content_documents::ContentDocumentSource;
use poet::mcp_resource_provider_content_documents::McpResourceProviderContentDocuments;

fn mime(text: &str) -> MimeType {
    MimeType::parse(text).expect("a media type")
}

fn parse_reference(text: &str) -> Result<ResourceReference, ResourceReferenceError> {
    ResourceReference::try_from(UriParts::parse(text).expect("a uri"))
}

#[test]
fn accepts_mime() {
    assert!(accepts(
        &vec![mime("image/something"), mime("text/*")],
        &mime("text/event-stream")
    ));
    assert!(accepts(&vec![mime("*/*")], &mime("text/event-stream")));
}

#[test]
fn does_not_accept_mime() {
    assert!(!accepts(&vec![mime("text/*")], &mime("something/else")));
}

#[test]
fn all_requested_mimes_are_acceptable() {
    assert!(matches!(
        accepts_all(Ok(vec![mime("text/*")]), vec![mime("text/event-stream")]),
        Conclusion::AllAcceptable
    ));
}

#[test]
fn rejects_when_a_requested_mime_is_not_acceptable() {
    assert!(matches!(
        accepts_all(Ok(vec![mime("text/plain")]), vec![mime("application/json")]),
        Conclusion::NotAllAcceptable
    ));
}

#[test]
fn reports_header_parse_error_for_invalid_accept_header() {
    assert!(matches!(
        accepts_all(
            Err("invalid header".to_string()),
            vec![mime("text/event-stream")]
        ),
        Conclusion::ErrorParsingHeader { .. }
    ));
}

#[test]
fn media_types_are_read_in_lowercase() {
    let m = mime("Text/HTML");
    assert_eq!(m.type_, "text");
    assert_eq!(m.subtype, "html");
    assert!(MimeType::parse("not a media type").is_none());
}

#[test]
fn responder_answers_by_what_the_client_accepts() {
    assert!(matches!(
        McpResponderHandler::<()>::action_for(Conclusion::AllAcceptable),
        ResponderAction::Respond
    ));
    assert!(matches!(
        McpResponderHandler::<()>::action_for(Conclusion::NotAllAcceptable),
        ResponderAction::NotAcceptable
    ));
    match McpResponderHandler::<()>::action_for(Conclusion::ErrorParsingHeader {
        message: "bad".to_string(),
    }) {
        ResponderAction::InternalServerError { body } => assert_eq!(body, "bad"),
        other => panic!("unexpected {other:?}"),
    }
}

#[test]
fn parses_scheme_class_and_stripped_path() -> Result<(), ResourceReferenceError> {
    let reference = parse_reference("res://documents/guide/intro")?;

    assert_eq!(reference.scheme, "res");
    assert_eq!(reference.class, "documents");
    assert_eq!(reference.path, "guide/intro");
    assert_eq!(reference.uri_string, "res://documents/guide/intro");

    Ok(())
}

#[test]
fn keeps_empty_path_when_no_path_segment() -> Result<(), ResourceReferenceError> {
    let reference = parse_reference("res://documents")?;

    assert_eq!(reference.class, "documents");
    assert_eq!(reference.path, "");

    Ok(())
}

#[test]
fn fails_when_scheme_is_missing() {
    assert!(parse_reference("//documents/guide").is_err());
}

#[test]
fn fails_when_authority_is_missing() {
    assert!(matches!(
        parse_reference("/guide"),
        Err(ResourceReferenceError::MissingAuthority { .. })
    ));
}

#[test]
fn text_that_is_no_uri_names_no_resource() {
    assert!(ResourceReference::parse("res://bad host/x").is_none());
}

fn provider() -> McpResourceProviderContentDocuments {
    let mut sources = NameIndex::new();
    sources.insert(
        "guide".to_string(),
        ContentDocumentSource {
            contents: "+++\ndescription = \"Guide description\"\ntitle = \"Guide\"\n+++\n\nbody\n"
                .to_string(),
            description: "Guide description".to_string(),
            relative_path: "guide".to_string(),
            title: "Guide".to_string(),
        },
    );
    McpResourceProviderContentDocuments {
        content_document_sources: Some(sources),
    }
}

fn reference(path: &str) -> ResourceReference {
    ResourceReference {
        class: "content".to_string(),
        path: path.to_string(),
        scheme: "poet".to_string(),
        uri_string: format!("poet://content/{path}"),
    }
}

#[test]
fn lists_content_documents_as_resources() {
    let provider = provider();

    assert_eq!(provider.total(), 1);

    let resources = provider.list_resources(10, 0).expect("built");

    assert_eq!(resources.len(), 1);
    assert_eq!(resources[0].name, "guide");
    assert_eq!(resources[0].title, "Guide");
    assert_eq!(resources[0].uri, "poet://content/guide");
}

#[test]
fn reads_existing_document_and_misses_unknown_one() {
    let provider = provider();

    let found = provider
        .read_resource_contents(&reference("guide"))
        .expect("built");
    let parts = found.expect("the guide");
    assert_eq!(parts.title, "Guide");
    assert_eq!(parts.parts.len(), 1);
    match &parts.parts[0] {
        ResourceContent::Text(t) => {
            assert_eq!(t.mime_type, "text/markdown");
            assert_eq!(t.uri, "poet://content/guide");
        }
    }
    assert!(provider
        .read_resource_contents(&reference("missing"))
        .expect("built")
        .is_none());
}

#[test]
fn provider_before_the_build_refuses() {
    let provider = McpResourceProviderContentDocuments {
        content_document_sources: None,
    };
    assert_eq!(provider.total(), 0);
    assert!(provider.list_resources(10, 0).is_err());
    assert!(provider.read_resource_contents(&reference("guide")).is_err());
}

#[test]
fn changed_document_notifies_its_resource() {
    let provider = provider();
    let changed = vec!["other".to_string(), "guide".to_string()];
    assert!(provider.changes_resource(&changed, "poet://content/guide"));
    assert!(!provider.changes_resource(&changed, "poet://content/missing"));
    assert_eq!(provider.resource_uri("a/b"), "poet://content/a/b");
}

#[test]
fn zero_page_size_is_invalid_params() {
    let handler = ResourcesListHandler { total: 5 };
    match handler.plan(
        Id::Number(7),
        Some(ListResourcesCursor {
            offset: 0,
            per_page: 0,
        }),
    ) {
        Err(Error::InvalidParams { id, message }) => {
            assert!(matches!(id, Id::Number(7)));
            assert_eq!(message, "per_page must be greater than 0");
        }
        other => panic!("unexpected {other:?}"),
    }
}

#[test]
fn next_cursor_starts_after_the_page_while_resources_remain() {
    let handler = ResourcesListHandler { total: 25 };
    let plan = handler.plan(Id::Number(1), None).expect("a plan");
    assert_eq!(plan.list_cursor, ListResourcesCursor::default());
    assert_eq!(
        plan.next_cursor,
        Some(ListResourcesCursor {
            offset: 10,
            per_page: 10
        })
    );

    let last = handler
        .plan(
            Id::Number(2),
            Some(ListResourcesCursor {
                offset: 20,
                per_page: 10,
            }),
        )
        .expect("a plan");
    assert_eq!(last.next_cursor, None);

    let huge = handler
        .plan(
            Id::Number(3),
            Some(ListResourcesCursor {
                offset: usize::MAX,
                per_page: 10,
            }),
        )
        .expect("a plan");
    assert_eq!(huge.next_cursor, None);
}

struct FixedPrompt {
    name: String,
}

impl PromptController for FixedPrompt {
    fn get_mcp_prompt(&self) -> Prompt {
        Prompt {
            arguments: Vec::new(),
            description: String::new(),
            name: self.name.clone(),
            title: self.name.clone(),
        }
    }
}

fn collection(names: &[&str]) -> PromptControllerCollection<FixedPrompt> {
    let mut index = NameIndex::new();
    for name in names {
        index.insert(
            name.to_string(),
            FixedPrompt {
                name: name.to_string(),
            },
        );
    }
    PromptControllerCollection(index)
}

#[test]
fn prompts_are_listed_once_loaded() {
    let waiting: PromptsListHandler<FixedPrompt> = PromptsListHandler {
        prompt_controller_collection: None,
    };
    match waiting.handle(Id::String("a".to_string()), None) {
        Err(Error::RequestInternal { message, .. }) => assert_eq!(
            message,
            "Prompt controller collection is not ready. The server is not ready yet or is still starting."
        ),
        other => panic!("unexpected {other:?}"),
    }

    let ready = PromptsListHandler {
        prompt_controller_collection: Some(collection(&["b", "a"])),
    };
    let prompts = ready.handle(Id::Number(1), None).expect("prompts");
    let names: Vec<&str> = prompts.iter().map(|p| p.name.as_str()).collect();
    assert_eq!(names, vec!["a", "b"]);
}

#[test]
fn prompt_is_found_by_name() {
    let handler = PromptsGetHandler {
        prompt_controller_collection: Some(collection(&["review"])),
    };
    let controller = handler
        .handle(Id::Number(1), "review".to_string())
        .expect("the controller");
    assert_eq!(controller.name, "review");
    match handler.handle(Id::Number(2), "missing".to_string()) {
        Err(Error::InvalidPromptName { name, .. }) => assert_eq!(name, "missing"),
        other => panic!("unexpected {:?}", other.map(|c| c.name.clone())),
    }
    let waiting: PromptsGetHandler<FixedPrompt> = PromptsGetHandler {
        prompt_controller_collection: None,
    };
    assert!(matches!(
        waiting.handle(Id::Number(3), "review".to_string()),
        Err(Error::RequestInternal { .. })
    ));
}

#[test]
fn handshake_is_logged_at_debug_level() {
    let message = InitializedHandler::handshake_message();
    assert_eq!(message.data, "Initialization handshake is successfully completed");
    assert!(matches!(message.level, LogLevel::Debug));
}

#[test]
fn providers_are_ordered_by_resource_class() {
    let content = ResourceProviderOrdered::new((), "content".to_string());
    let assets = ResourceProviderOrdered::new((), "assets".to_string());
    let other_content = ResourceProviderOrdered::new((), "content".to_string());
    assert!(content.same_class(&other_content));
    assert!(!content.same_class(&assets));
    assert!(matches!(assets.order(&content), NameOrder::Less));
    assert!(matches!(content.order(&assets), NameOrder::Greater));
    assert!(matches!(content.order(&other_content), NameOrder::Equal));
}

use poet::mcp::list_resources_cursor::token::cursor_json_of_token;
use poet::mcp::list_resources_cursor::token::token_of_cursor_json;

#[test]
fn decodes_offset_and_per_page_from_valid_token() {
    let token = token_of_cursor_json(b"{\"offset\":5,\"per_page\":10}");
    assert_eq!(token, "eyJvZmZzZXQiOjUsInBlcl9wYWdlIjoxMH0=");

    let json = cursor_json_of_token(&token).expect("base64");
    let value: serde_json::Value = serde_json::from_slice(&json).expect("json");

    assert_eq!(value["offset"].as_u64(), Some(5));
    assert_eq!(value["per_page"].as_u64(), Some(10));
}

#[test]
fn fails_for_token_that_is_not_valid_base64() {
    match cursor_json_of_token("@@@invalid@@@") {
        Err(e) => assert_eq!(e.token, "@@@invalid@@@"),
        Ok(bytes) => panic!("decoded {bytes:?}"),
    }
}

#[test]
fn fails_for_token_whose_decoded_bytes_are_not_valid_cursor_json() {
    let token = token_of_cursor_json(b"not json");
    let json = cursor_json_of_token(&token).expect("base64");

    assert_eq!(json, b"not json".to_vec());
    assert!(serde_json::from_slice::<serde_json::Value>(&json).is_err());
}
