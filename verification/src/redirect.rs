//! What the HTTP frontend answers to `GET /{code}`.

use vstd::prelude::*;

use crate::registry::{lookup, UrlShortener};

verus! {

/// The status of a permanent redirect.
pub const STATUS_MOVED_PERMANENTLY: u16 = 301;

/// The status of a miss.
pub const STATUS_NOT_FOUND: u16 = 404;

/// The answer to a request for a short code.
#[derive(Debug)]
pub enum Redirect {
    /// The code is known: redirect permanently, with the stored URL in the
    /// `Location` header.
    MovedPermanently { location: String },
    /// The code is unknown: not found, with an empty body.
    NotFound,
}

impl Redirect {
    /// The HTTP status code of the answer.
    pub open spec fn spec_status(self) -> u16 {
        match self {
            Redirect::MovedPermanently { .. } => STATUS_MOVED_PERMANENTLY,
            Redirect::NotFound => STATUS_NOT_FOUND,
        }
    }

    /// The HTTP status code of the answer.
    pub fn status(&self) -> (code: u16)
        ensures
            code == self.spec_status(),
    {
        match self {
            Redirect::MovedPermanently { .. } => STATUS_MOVED_PERMANENTLY,
            Redirect::NotFound => STATUS_NOT_FOUND,
        }
    }
}

/// Answers a request for `code`: a permanent redirect to the stored URL on a
/// hit, not found on a miss.
pub fn redirect(shortener: &UrlShortener, code: &str) -> (answer: Redirect)
    ensures
        match lookup(shortener@, code@) {
            Some(target) => answer matches Redirect::MovedPermanently { location } && location@
                == target,
            None => answer is NotFound,
        },
{
    match shortener.expand(code) {
        Ok(url) => Redirect::MovedPermanently { location: url },
        Err(_) => Redirect::NotFound,
    }
}

} // verus!
