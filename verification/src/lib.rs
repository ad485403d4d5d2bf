//! Verified core of the wallet services: response envelopes, request
//! validation, fee statistics, webhook retransmission keys and the
//! decision logic of the HTTP handlers and background workers.

pub mod test_web;
pub mod text;
pub mod amount_computer;
pub mod bytes;
pub mod web_retrans;
pub mod wallet_webhook;
pub mod business_info;
pub mod url_notify;
pub mod user_info;
pub mod change_pass;
pub mod listing;
pub mod agents;
pub mod transfer;
pub mod ids;
