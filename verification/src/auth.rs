use vstd::prelude::*;

verus! {

/// Holds the credential secret that the dispatch layer presents to the
/// provider. The library consumes a pre-resolved secret; reading it from the
/// environment is the embedding application's job.
pub struct Auth {
    pub api_key: String,
}

impl Auth {
    pub fn new(api_key: String) -> (r: Auth)
        ensures
            r.api_key == api_key,
    {
        Auth { api_key }
    }
}

/// Builds an `Auth` from a borrowed key, copying it into an owned secret.
pub fn create_auth_with_given_api_key(api_key: &str) -> (r: Auth)
    ensures
        r.api_key@ == api_key@,
{
    Auth::new(api_key.to_owned())
}

} // verus!
