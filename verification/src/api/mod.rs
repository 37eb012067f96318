//! The decisions behind the server functions the screen and the admin page
//! call: what is checked, refused and built before the database or the file
//! system is touched.

pub mod auth;
pub mod calendar;
pub mod settings;
pub mod slides;

use vstd::prelude::*;

verus! {

/// Why a server function refused a request.
#[derive(Debug)]
pub enum ApiError {
    /// The request needs a logged-in user.
    NotLoggedIn,
    /// The request needs an administrator.
    Forbidden,
    /// Google did not accept the ID token.
    InvalidGoogleToken,
    /// Google's answer names no email address.
    NoEmail,
    /// The email address is not one of the users.
    NotAuthorizedUser,
    /// The layout name is not one the screen knows; the name.
    UnknownLayoutType(String),
    /// The live slides link is not a Google Slides link.
    NotGoogleSlidesUrl,
    /// The upload request carries no multipart form.
    NoMultipartData,
    /// The upload form has no caption.
    MissingCaption,
    /// The upload form has no first day.
    MissingStartDate,
    /// The upload form has no last day.
    MissingEndDate,
    /// The upload form has no image, or the image has no type.
    MissingImageFile,
    /// A date of the upload form could not be read; why.
    InvalidDate(String),
    /// A slide id is not a UUID; why.
    InvalidSlideId(String),
}

/// The text the refusal is reported with.
pub open spec fn api_error_message(e: ApiError) -> Seq<char> {
    match e {
        ApiError::NotLoggedIn => "Not logged in"@,
        ApiError::Forbidden => "Forbidden"@,
        ApiError::InvalidGoogleToken => "Invalid Google ID token"@,
        ApiError::NoEmail => "No email in Google payload"@,
        ApiError::NotAuthorizedUser => "Not an authorized user"@,
        ApiError::UnknownLayoutType(t) => "unknown layout type: "@ + t@,
        ApiError::NotGoogleSlidesUrl => "live slides URL must be a Google Slides link (https://docs.google.com/presentation/...)"@,
        ApiError::NoMultipartData => "no multipart data"@,
        ApiError::MissingCaption => "missing caption"@,
        ApiError::MissingStartDate => "missing start date"@,
        ApiError::MissingEndDate => "missing end date"@,
        ApiError::MissingImageFile => "missing image file"@,
        ApiError::InvalidDate(m) => m@,
        ApiError::InvalidSlideId(m) => m@,
    }
}

impl ApiError {
    /// The text the refusal is reported with.
    pub fn message(&self) -> (res: String)
        ensures
            res@ == api_error_message(*self),
    {
        match self {
            ApiError::NotLoggedIn => String::from_str("Not logged in"),
            ApiError::Forbidden => String::from_str("Forbidden"),
            ApiError::InvalidGoogleToken => String::from_str("Invalid Google ID token"),
            ApiError::NoEmail => String::from_str("No email in Google payload"),
            ApiError::NotAuthorizedUser => String::from_str("Not an authorized user"),
            ApiError::UnknownLayoutType(t) => String::from_str("unknown layout type: ").concat(t.as_str()),
            ApiError::NotGoogleSlidesUrl => String::from_str(
                "live slides URL must be a Google Slides link (https://docs.google.com/presentation/...)",
            ),
            ApiError::NoMultipartData => String::from_str("no multipart data"),
            ApiError::MissingCaption => String::from_str("missing caption"),
            ApiError::MissingStartDate => String::from_str("missing start date"),
            ApiError::MissingEndDate => String::from_str("missing end date"),
            ApiError::MissingImageFile => String::from_str("missing image file"),
            ApiError::InvalidDate(m) => m.clone(),
            ApiError::InvalidSlideId(m) => m.clone(),
        }
    }
}

} // verus!
