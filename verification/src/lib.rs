//! Household bookkeeping core: money formatting, ledger balance rules,
//! record validation, sync document mapping and export rendering.

pub mod text;
pub mod error;
pub mod models;
pub mod domain;
pub mod sync;
pub mod commands;
pub mod ids;
pub mod calendar;
pub mod repository;
