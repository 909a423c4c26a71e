pub mod initialize_result;
pub mod prompts_get_result;
pub mod resource_templates_list;
pub mod resources_list;
pub mod resources_read;
pub mod tools_list;
