//! The errors that registry operations report.

use vstd::prelude::*;
use vstd::std_specs::convert::FromSpecImpl;
use vstd::string::{to_string_from_display_ensures, StringExecFns};

verus! {

/// Why a registry operation failed.
#[derive(Debug)]
pub enum UrlShortenerError {
    /// The short code is not in the registry.
    UrlNotFound,
    /// The URL does not start with an accepted scheme.
    InvalidUrl,
    /// The snapshot could not be read, parsed or written; the cause is attached.
    StorageError(String),
}

impl UrlShortenerError {
    /// The text shown to a user for this error.
    pub open spec fn spec_message(self) -> Seq<char> {
        match self {
            UrlShortenerError::UrlNotFound => "Short URL not found"@,
            UrlShortenerError::InvalidUrl => "Invalid URL provided"@,
            UrlShortenerError::StorageError(cause) => "Storage error: "@ + cause@,
        }
    }

    /// Renders the error as the text shown to a user.
    pub fn message(&self) -> (text: String)
        ensures
            text@ == self.spec_message(),
    {
        match self {
            UrlShortenerError::UrlNotFound => String::from_str("Short URL not found"),
            UrlShortenerError::InvalidUrl => String::from_str("Invalid URL provided"),
            UrlShortenerError::StorageError(cause) => {
                String::from_str("Storage error: ").concat(cause.as_str())
            },
        }
    }
}

/// serde_json's error type. Verus carries such a value through without
/// looking inside it.
#[verifier::external_type_specification]
#[verifier::external_body]
pub struct ExJsonError(serde_json::Error);

/// The standard library's I/O error type, carried through in the same way.
#[verifier::external_type_specification]
#[verifier::external_body]
pub struct ExIoError(std::io::Error);

/// `cause` is the text that some failure of serde_json displays as.
pub open spec fn is_json_failure_text(cause: String) -> bool {
    exists|err: serde_json::Error| to_string_from_display_ensures(&err, cause)
}

impl From<serde_json::Error> for UrlShortenerError {
    /// A JSON failure becomes a storage error whose cause is the text that
    /// the failure displays as.
    fn from(err: serde_json::Error) -> (error: Self)
        ensures
            error matches UrlShortenerError::StorageError(cause) && to_string_from_display_ensures(
                &err,
                cause,
            ) && is_json_failure_text(cause),
    {
        UrlShortenerError::StorageError(err.to_string())
    }
}

impl FromSpecImpl<serde_json::Error> for UrlShortenerError {
    /// The displayed text is not known to be unique, so the conversion is
    /// described by the `ensures` of `from` rather than by an equation.
    open spec fn obeys_from_spec() -> bool {
        false
    }

    open spec fn from_spec(err: serde_json::Error) -> Self {
        UrlShortenerError::StorageError(
            choose|cause: String| to_string_from_display_ensures(&err, cause),
        )
    }
}

impl From<std::io::Error> for UrlShortenerError {
    /// An I/O failure becomes a storage error whose cause is the text that
    /// the failure displays as.
    fn from(err: std::io::Error) -> (error: Self)
        ensures
            error matches UrlShortenerError::StorageError(cause)
                && to_string_from_display_ensures(&err, cause),
    {
        UrlShortenerError::StorageError(err.to_string())
    }
}

impl FromSpecImpl<std::io::Error> for UrlShortenerError {
    /// As for JSON failures: `from` states the relation, not an equation.
    open spec fn obeys_from_spec() -> bool {
        false
    }

    open spec fn from_spec(err: std::io::Error) -> Self {
        UrlShortenerError::StorageError(
            choose|cause: String| to_string_from_display_ensures(&err, cause),
        )
    }
}

} // verus!
