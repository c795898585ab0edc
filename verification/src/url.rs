//! Which target URLs the registry accepts.

use vstd::prelude::*;

use crate::text::starts_with;

verus! {

/// A target URL is accepted exactly when it starts with `http://` or
/// `https://`. The match is case-sensitive and nothing after the scheme is
/// examined.
pub open spec fn has_accepted_scheme(url: Seq<char>) -> bool {
    "http://"@.is_prefix_of(url) || "https://"@.is_prefix_of(url)
}

/// Decides whether `url` may be shortened.
pub fn is_valid_url(url: &str) -> (valid: bool)
    ensures
        valid == has_accepted_scheme(url@),
{
    starts_with(url, "http://") || starts_with(url, "https://")
}

} // verus!
