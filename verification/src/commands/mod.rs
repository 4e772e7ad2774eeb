pub mod accounts;
pub mod categories;
pub mod recurring;
pub mod operations;
pub mod budgets;
pub mod export;
pub mod reports;
pub mod session;
pub mod sync;
