pub mod get_info;
pub mod response;
pub mod user_info;
