pub mod recv_url;
pub mod response;
pub mod send_url;
