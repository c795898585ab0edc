//! A small URL shortener: a registry that maps short codes to target URLs,
//! together with the rules for validating URLs, generating codes and
//! framing the persisted snapshot.

pub mod code;
pub mod error;
pub mod laws;
pub mod redirect;
pub mod registry;
pub mod snapshot;
pub mod text;
pub mod url;

pub use error::UrlShortenerError;
pub use redirect::{redirect, Redirect};
pub use registry::{Shortened, UrlShortener};
