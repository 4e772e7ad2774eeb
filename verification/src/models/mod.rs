pub mod account;
pub mod budget;
pub mod category;
pub mod household;
pub mod merchant;
pub mod money;
pub mod receipt_item;
pub mod recurring;
pub mod transaction;
