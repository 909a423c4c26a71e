use std::sync::Arc;

use poet::mcp::list_resources_cursor::ListResourcesCursor;
use poet::mcp::name_index::NameIndex;
use poet::mcp::prompt::Prompt;
use poet::mcp::prompt_controller::PromptController;
use poet::mcp::prompt_controller_collection::PromptControllerCollection;
use poet::mcp::tool::Tool;
use poet::mcp::tool_registry::ToolRegistry;

struct EchoTool;

fn registry_with(tool_names: &[&str]) -> ToolRegistry<EchoTool> {
    let mut registry = ToolRegistry::new();

    for tool_name in tool_names {
        registry.register_owned(
            tool_name.to_string(),
            Tool {
                name: tool_name.to_string(),
            },
            EchoTool,
        );
    }

    registry
}

#[test]
fn list_tool_definitions_paginates_by_offset_and_per_page() {
    let registry = registry_with(&["echo", "ping"]);

    let first_page = registry.list_tool_definitions(ListResourcesCursor {
        offset: 0,
        per_page: 1,
    });
    let second_page = registry.list_tool_definitions(ListResourcesCursor {
        offset: 1,
        per_page: 1,
    });

    assert_eq!(first_page.len(), 1);
    assert_eq!(first_page[0].name, "echo");
    assert_eq!(second_page.len(), 1);
    assert_eq!(second_page[0].name, "ping");
}

#[test]
fn listing_is_sorted_by_name_whatever_the_registration_order() {
    let registry = registry_with(&["zeta", "alpha", "Beta", "alp", "\u{e9}t\u{e9}"]);
    let all = registry.list_tool_definitions(ListResourcesCursor {
        offset: 0,
        per_page: 100,
    });
    let names: Vec<String> = all.into_iter().map(|t| t.name).collect();
    let mut expected = names.clone();
    expected.sort();
    assert_eq!(names, expected);
    assert_eq!(names, vec!["Beta", "alp", "alpha", "zeta", "\u{e9}t\u{e9}"]);
}

#[test]
fn registering_a_name_again_replaces_the_tool() {
    let mut registry = registry_with(&["echo"]);
    registry.register(
        "echo".to_string(),
        Tool {
            name: "echo2".to_string(),
        },
        Arc::new(EchoTool),
    );
    assert_eq!(registry.len(), 1);
    let all = registry.list_tool_definitions(ListResourcesCursor::default());
    assert_eq!(all[0].name, "echo2");
    assert!(registry.call_tool("echo").is_some());
    assert!(registry.call_tool("missing").is_none());
}

#[test]
fn pages_past_the_end_are_empty_and_short_pages_are_cut() {
    let registry = registry_with(&["a", "b", "c"]);
    let cut = registry.list_tool_definitions(ListResourcesCursor {
        offset: 2,
        per_page: usize::MAX,
    });
    assert_eq!(cut.len(), 1);
    assert_eq!(cut[0].name, "c");
    assert!(registry
        .list_tool_definitions(ListResourcesCursor {
            offset: usize::MAX,
            per_page: 3,
        })
        .is_empty());
    assert!(registry
        .list_tool_definitions(ListResourcesCursor {
            offset: 0,
            per_page: 0,
        })
        .is_empty());
}

#[test]
fn consecutive_pages_cover_the_listing() {
    let registry = registry_with(&["a", "b", "c", "d", "e"]);
    let mut seen = Vec::new();
    let mut offset = 0;
    loop {
        let page = registry.list_tool_definitions(ListResourcesCursor {
            offset,
            per_page: 2,
        });
        if page.is_empty() {
            break;
        }
        seen.extend(page.into_iter().map(|t| t.name));
        offset += 2;
    }
    assert_eq!(seen, vec!["a", "b", "c", "d", "e"]);
}

struct FixedPrompt {
    name: String,
}

impl PromptController for FixedPrompt {
    fn get_mcp_prompt(&self) -> Prompt {
        Prompt {
            arguments: Vec::new(),
            description: format!("{} description", self.name),
            name: self.name.clone(),
            title: self.name.to_uppercase(),
        }
    }
}

#[test]
fn list_mcp_prompts_pages_in_name_order() {
    let mut index = NameIndex::new();
    for name in ["review", "draft", "summarize"] {
        index.insert(
            name.to_string(),
            FixedPrompt {
                name: name.to_string(),
            },
        );
    }
    let collection = PromptControllerCollection(index);
    let page = collection.list_mcp_prompts(ListResourcesCursor {
        offset: 1,
        per_page: 5,
    });
    let names: Vec<&str> = page.iter().map(|p| p.name.as_str()).collect();
    assert_eq!(names, vec!["review", "summarize"]);
    assert_eq!(page[0].title, "REVIEW");
}

#[test]
fn default_cursor_starts_at_the_beginning() {
    let cursor = ListResourcesCursor::default();
    assert_eq!(cursor.offset, 0);
    assert!(cursor.per_page > 0);
}

#[test]
fn call_tool_routes_input_to_registered_handler() {
    let registry = registry_with(&["echo", "ping"]);

    let handler = registry.call_tool("echo").expect("a registered tool");

    assert_eq!(handler.tool_definition().name, "echo");
}

#[test]
fn call_tool_reports_unknown_tool() {
    assert!(registry_with(&["echo"]).call_tool("missing").is_none());
}

#[test]
fn register_owned_acts_as_register_with_a_shared_responder() {
    let mut owned: ToolRegistry<EchoTool> = ToolRegistry::new();
    owned.register_owned("echo".to_string(), Tool { name: "echo".to_string() }, EchoTool);
    let mut shared: ToolRegistry<EchoTool> = ToolRegistry::new();
    shared.register("echo".to_string(), Tool { name: "echo".to_string() }, Arc::new(EchoTool));

    assert_eq!(owned.len(), shared.len());
    let owned_names: Vec<String> = owned
        .list_tool_definitions(ListResourcesCursor::default())
        .into_iter()
        .map(|tool| tool.name)
        .collect();
    let shared_names: Vec<String> = shared
        .list_tool_definitions(ListResourcesCursor::default())
        .into_iter()
        .map(|tool| tool.name)
        .collect();
    assert_eq!(owned_names, shared_names);
    assert!(owned.call_tool("echo").is_some());
    assert!(shared.call_tool("echo").is_some());
}
