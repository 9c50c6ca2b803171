//! Requests to remote endpoints.

use vstd::prelude::*;

verus! {

/// `std::io::Error`, carried as an opaque value in results.
#[verifier::external_type_specification]
#[verifier::external_body]
pub struct ExIoError(std::io::Error);

/// Posts to `_url`. Nothing is sent; the post always succeeds.
pub fn post(_url: &String) -> (r: Result<(), std::io::Error>)
    ensures
        r is Ok,
{
    Ok(())
}

} // verus!
