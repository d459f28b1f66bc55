use vstd::prelude::*;

verus! {

/// The provider contract a client talks to. The variant determines both the
/// shape of the request URI and the authentication header the dispatch layer
/// attaches:
/// - `OpenAI`: the direct API; the model identifier travels in the JSON body
///   and the secret is sent as a bearer credential.
/// - `Azure`: a gateway deployment; the model identifier is a URI path
///   segment and the secret is sent in a named `api-key` header.
/// - `AzureAD`: the same gateway shape, but authentication comes from the
///   ambient infrastructure identity and no credential header is sent.
#[derive(Clone, Copy, Debug, PartialEq, Eq, Structural)]
pub enum ApiType {
    OpenAI,
    Azure,
    AzureAD,
}

} // verus!
