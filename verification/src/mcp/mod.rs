pub mod accepts_all;
pub mod content_block;
pub mod handler;
pub mod jsonrpc;
pub mod list_resources_cursor;
pub mod log_level;
pub mod mcp_responder_handler;
pub mod name_index;
pub mod prompt;
pub mod prompt_controller;
pub mod prompt_controller_collection;
pub mod prompt_message;
pub mod resource;
pub mod resource_content;
pub mod resource_content_parts;
pub mod resource_provider_ordered;
pub mod resource_reference;
pub mod resource_template;
pub mod session;
pub mod session_manager;
pub mod tool;
pub mod tool_handler_service;
pub mod tool_registry;
