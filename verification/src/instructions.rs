pub mod guardians_set;
pub mod transaction_execute;
pub mod wallet_create;
