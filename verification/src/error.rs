//! The application's error type.

use vstd::prelude::*;

verus! {

/// What went wrong, with a human-readable description. Playback errors are
/// surfaced as events carrying such a description.
#[derive(Debug)]
pub enum AppError {
    Database(String),
    Io(String),
    Audio(String),
    MediaControl(String),
    Unknown(String),
}

impl AppError {
    /// The description the error carries.
    pub fn message(&self) -> (r: &String)
        ensures
            (match self {
                AppError::Database(m) => r == m,
                AppError::Io(m) => r == m,
                AppError::Audio(m) => r == m,
                AppError::MediaControl(m) => r == m,
                AppError::Unknown(m) => r == m,
            }),
    {
        match self {
            AppError::Database(m) => m,
            AppError::Io(m) => m,
            AppError::Audio(m) => m,
            AppError::MediaControl(m) => m,
            AppError::Unknown(m) => m,
        }
    }
}

impl From<String> for AppError {
    /// A bare description converts to an unclassified error.
    fn from(s: String) -> (r: AppError) {
        AppError::Unknown(s)
    }
}

impl vstd::std_specs::convert::FromSpecImpl<String> for AppError {
    open spec fn obeys_from_spec() -> bool {
        true
    }

    open spec fn from_spec(s: String) -> AppError {
        AppError::Unknown(s)
    }
}

} // verus!
