pub mod auth;
pub mod fields;
pub mod firestore;
pub mod mapper;
pub mod sync_service;
pub mod merge;
