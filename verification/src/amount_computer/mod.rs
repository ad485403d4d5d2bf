pub mod get_amount;
