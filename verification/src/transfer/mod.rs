pub mod get_info;
pub mod transfer;
