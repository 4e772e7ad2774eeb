//! The error type shared by all operations of the library.

use vstd::prelude::*;
use crate::text::concat_str;

verus! {

/// Errors reported to the user interface. Errors that originate in the
/// database, the network or a file format carry the message of their source.
#[derive(Debug)]
pub enum AppError {
    Db(String),
    Migration(String),
    Io(String),
    Serde(String),
    Http(String),
    Xlsx(String),
    Csv(String),
    Tauri(String),
    NotFound(String),
    InvalidArg(String),
    Unauthorized(String),
    Firebase(String),
    Other(String),
}

/// The abstract value of an [`AppError`]: its variant and message text.
pub enum AppErrorV {
    Db(Seq<char>),
    Migration(Seq<char>),
    Io(Seq<char>),
    Serde(Seq<char>),
    Http(Seq<char>),
    Xlsx(Seq<char>),
    Csv(Seq<char>),
    Tauri(Seq<char>),
    NotFound(Seq<char>),
    InvalidArg(Seq<char>),
    Unauthorized(Seq<char>),
    Firebase(Seq<char>),
    Other(Seq<char>),
}

impl View for AppError {
    type V = AppErrorV;

    open spec fn view(&self) -> AppErrorV {
        match self {
            AppError::Db(s) => AppErrorV::Db(s@),
            AppError::Migration(s) => AppErrorV::Migration(s@),
            AppError::Io(s) => AppErrorV::Io(s@),
            AppError::Serde(s) => AppErrorV::Serde(s@),
            AppError::Http(s) => AppErrorV::Http(s@),
            AppError::Xlsx(s) => AppErrorV::Xlsx(s@),
            AppError::Csv(s) => AppErrorV::Csv(s@),
            AppError::Tauri(s) => AppErrorV::Tauri(s@),
            AppError::NotFound(s) => AppErrorV::NotFound(s@),
            AppError::InvalidArg(s) => AppErrorV::InvalidArg(s@),
            AppError::Unauthorized(s) => AppErrorV::Unauthorized(s@),
            AppError::Firebase(s) => AppErrorV::Firebase(s@),
            AppError::Other(s) => AppErrorV::Other(s@),
        }
    }
}

/// The user-facing text of an error: a prefix naming its kind, then its message.
pub open spec fn error_text(e: AppErrorV) -> Seq<char> {
    match e {
        AppErrorV::Db(s) => "database error: "@ + s,
        AppErrorV::Migration(s) => "migration error: "@ + s,
        AppErrorV::Io(s) => "io error: "@ + s,
        AppErrorV::Serde(s) => "serde error: "@ + s,
        AppErrorV::Http(s) => "http error: "@ + s,
        AppErrorV::Xlsx(s) => "xlsx error: "@ + s,
        AppErrorV::Csv(s) => "csv error: "@ + s,
        AppErrorV::Tauri(s) => "tauri error: "@ + s,
        AppErrorV::NotFound(s) => "not found: "@ + s,
        AppErrorV::InvalidArg(s) => "invalid argument: "@ + s,
        AppErrorV::Unauthorized(s) => "unauthorized: "@ + s,
        AppErrorV::Firebase(s) => "firebase error: "@ + s,
        AppErrorV::Other(s) => s,
    }
}

impl AppError {
    /// The text shown to the user (what the error serialises to).
    pub fn message(&self) -> (m: String)
        ensures
            m@ == error_text(self@),
    {
        match self {
            AppError::Db(s) => concat_str("database error: ", s.as_str()),
            AppError::Migration(s) => concat_str("migration error: ", s.as_str()),
            AppError::Io(s) => concat_str("io error: ", s.as_str()),
            AppError::Serde(s) => concat_str("serde error: ", s.as_str()),
            AppError::Http(s) => concat_str("http error: ", s.as_str()),
            AppError::Xlsx(s) => concat_str("xlsx error: ", s.as_str()),
            AppError::Csv(s) => concat_str("csv error: ", s.as_str()),
            AppError::Tauri(s) => concat_str("tauri error: ", s.as_str()),
            AppError::NotFound(s) => concat_str("not found: ", s.as_str()),
            AppError::InvalidArg(s) => concat_str("invalid argument: ", s.as_str()),
            AppError::Unauthorized(s) => concat_str("unauthorized: ", s.as_str()),
            AppError::Firebase(s) => concat_str("firebase error: ", s.as_str()),
            AppError::Other(s) => s.clone(),
        }
    }
}

} // verus!
