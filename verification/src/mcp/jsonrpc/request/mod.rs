pub mod resources_read;
pub mod tools_list;
