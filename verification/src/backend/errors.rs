//! Errors of the settings service.

use vstd::prelude::*;

verus! {

/// Why a request to the settings service failed.
#[derive(Debug)]
pub enum SettingsError {
    /// The database refused a query; its message.
    Database(String),
    NotFound,
    /// The new settings were refused; why.
    Validation(String),
    /// No database connection could be had; the reason.
    ConnectionError(String),
    /// The database refused a query; its message.
    DatabaseError(String),
}

/// The text the error is reported with.
pub open spec fn settings_error_message(e: SettingsError) -> Seq<char> {
    match e {
        SettingsError::Database(m) => "Database error: "@ + m@,
        SettingsError::NotFound => "Settings not found"@,
        SettingsError::Validation(m) => "Validation error: "@ + m@,
        SettingsError::ConnectionError(m) => "Connection error: "@ + m@,
        SettingsError::DatabaseError(m) => "Database error: "@ + m@,
    }
}

impl SettingsError {
    /// The text the error is reported with.
    pub fn message(&self) -> (res: String)
        ensures
            res@ == settings_error_message(*self),
    {
        match self {
            SettingsError::Database(m) => String::from_str("Database error: ").concat(m.as_str()),
            SettingsError::NotFound => String::from_str("Settings not found"),
            SettingsError::Validation(m) => String::from_str("Validation error: ").concat(m.as_str()),
            SettingsError::ConnectionError(m) => String::from_str("Connection error: ").concat(m.as_str()),
            SettingsError::DatabaseError(m) => String::from_str("Database error: ").concat(m.as_str()),
        }
    }
}

} // verus!
