pub mod agents;
pub mod get_info;
