pub mod accounts;
pub mod models;
