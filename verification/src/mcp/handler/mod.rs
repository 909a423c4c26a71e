pub mod initialized_handler;
pub mod prompts_get_handler;
pub mod prompts_list_handler;
pub mod resources_list_handler;
