pub mod keys;
pub mod retrans;
pub mod seal;
