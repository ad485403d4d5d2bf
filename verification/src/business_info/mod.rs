pub mod authen_info;
pub mod register_b;
pub mod response;
