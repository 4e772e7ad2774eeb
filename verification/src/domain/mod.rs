pub mod balance;
pub mod session;
