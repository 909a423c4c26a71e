pub mod document_error_collection;
pub mod escape;
pub mod eval_content_document_mdast;
pub mod eval_mdx_element;
pub mod eval_prompt_document_mdast;
pub mod external_asset;
pub mod filesystem;
pub mod filesystem_http_route_index;
pub mod generate_embedding;
pub mod highlight;
pub mod find_table_of_contents_in_mdast;
pub mod is_external_link;
pub mod is_image_path;
pub mod is_valid_desktop_entry_string;
pub mod mcp;
pub mod mcp_resource_provider_content_documents;
pub mod mdast;
pub mod prompt_document_component_context;
pub mod text;
