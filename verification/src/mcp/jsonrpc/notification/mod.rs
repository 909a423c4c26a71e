pub mod message;
pub mod resources_list_changed;
pub mod resources_updated;
