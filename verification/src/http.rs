//! Requests of the simple HTTP client.
use vstd::prelude::*;
use crate::text::{owned, push_str};

verus! {

/// The URL a request goes to: the client's base URL followed by the path,
/// as given (no separator is added or removed).
pub fn request_url(base_url: &str, path: &str) -> (r: String)
    ensures
        r@ == base_url@ + path@,
{
    let mut r = owned(base_url);
    push_str(&mut r, path);
    r
}

} // verus!
