pub mod get_status;
pub mod url_status;
