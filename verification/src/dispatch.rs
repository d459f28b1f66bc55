use vstd::prelude::*;
use vstd::string::StringExecFns;
use crate::api_type::ApiType;
use crate::client::Client;
use crate::client::direct_uri;
use crate::client::gateway_uri;
use crate::client::version_or_default;
use crate::error::Error;

verus! {

// The dispatch layer picks the authentication scheme per provider kind and
// assembles everything the transport needs: the resolved URI, the headers,
// and the body. The network call itself is left to the embedding
// application, which sends exactly what stands in a `PreparedRequest`.

/// The authentication headers of one provider kind: the key-based gateway
/// carries the secret in a named `api-key` header, the direct API carries
/// it as a bearer credential, and managed identity carries nothing.
pub open spec fn auth_headers(api_type: ApiType, api_key: Seq<char>) -> Seq<
    (Seq<char>, Seq<char>),
> {
    match api_type {
        ApiType::OpenAI => seq![("Authorization"@, "Bearer "@ + api_key)],
        ApiType::Azure => seq![("api-key"@, api_key)],
        ApiType::AzureAD => Seq::empty(),
    }
}

/// Every header of a dispatched request: the JSON content type always,
/// then the provider kind's authentication headers.
pub open spec fn request_headers(api_type: ApiType, api_key: Seq<char>) -> Seq<
    (Seq<char>, Seq<char>),
> {
    seq![("Content-Type"@, "application/json"@)] + auth_headers(api_type, api_key)
}

/// The abstract value of an executable header list.
pub open spec fn header_views(hs: Seq<(String, String)>) -> Seq<(Seq<char>, Seq<char>)> {
    hs.map_values(|h: (String, String)| (h.0@, h.1@))
}

/// How many headers of the list carry the given name.
pub open spec fn count_named(hs: Seq<(Seq<char>, Seq<char>)>, name: Seq<char>) -> nat
    decreases hs.len(),
{
    if hs.len() == 0 {
        0
    } else {
        (if hs[0].0 == name {
            1nat
        } else {
            0nat
        }) + count_named(hs.drop_first(), name)
    }
}

/// The credential policy of the dispatch layer: under managed identity no
/// header at all is named `api-key` or `Authorization`, so no header
/// carries the secret; the key-based gateway sends exactly one `api-key`
/// header and it holds the secret; the direct API sends exactly one
/// `Authorization` header and it holds the secret as a bearer credential.
pub proof fn lemma_credential_header_policy(api_type: ApiType, api_key: Seq<char>)
    ensures
        count_named(request_headers(api_type, api_key), "api-key"@) == (
        if api_type is Azure {
            1nat
        } else {
            0nat
        }),
        count_named(request_headers(api_type, api_key), "Authorization"@) == (
        if api_type is OpenAI {
            1nat
        } else {
            0nat
        }),
        api_type is Azure ==> request_headers(api_type, api_key)[1] == ("api-key"@, api_key),
        api_type is OpenAI ==> request_headers(api_type, api_key)[1] == (
            "Authorization"@,
            "Bearer "@ + api_key,
        ),
{
    reveal_strlit("Content-Type");
    reveal_strlit("api-key");
    reveal_strlit("Authorization");
    assert("Content-Type"@.len() == 12);
    assert("api-key"@.len() == 7);
    assert("Authorization"@.len() == 13);
    let h = request_headers(api_type, api_key);
    assert(h[0].0 == "Content-Type"@);
    assert(h[0].0 != "api-key"@);
    assert(h[0].0 != "Authorization"@);
    match api_type {
        ApiType::OpenAI => {
            assert(h =~= seq![
                ("Content-Type"@, "application/json"@),
                ("Authorization"@, "Bearer "@ + api_key),
            ]);
            assert(h.drop_first() =~= seq![("Authorization"@, "Bearer "@ + api_key)]);
            assert(h.drop_first().drop_first() =~= Seq::<(Seq<char>, Seq<char>)>::empty());
            assert(count_named(h.drop_first().drop_first(), "api-key"@) == 0);
            assert(count_named(h.drop_first(), "api-key"@) == 0);
            assert(count_named(h, "api-key"@) == 0);
            assert(count_named(h.drop_first().drop_first(), "Authorization"@) == 0);
            assert(count_named(h.drop_first(), "Authorization"@) == 1);
            assert(count_named(h, "Authorization"@) == 1);
        },
        ApiType::Azure => {
            assert(h =~= seq![("Content-Type"@, "application/json"@), ("api-key"@, api_key)]);
            assert(h.drop_first() =~= seq![("api-key"@, api_key)]);
            assert(h.drop_first().drop_first() =~= Seq::<(Seq<char>, Seq<char>)>::empty());
            assert(count_named(h.drop_first().drop_first(), "api-key"@) == 0);
            assert(count_named(h.drop_first(), "api-key"@) == 1);
            assert(count_named(h, "api-key"@) == 1);
            assert(count_named(h.drop_first().drop_first(), "Authorization"@) == 0);
            assert(count_named(h.drop_first(), "Authorization"@) == 0);
            assert(count_named(h, "Authorization"@) == 0);
        },
        ApiType::AzureAD => {
            assert(h =~= seq![("Content-Type"@, "application/json"@)]);
            assert(h.drop_first() =~= Seq::<(Seq<char>, Seq<char>)>::empty());
            assert(count_named(h.drop_first(), "api-key"@) == 0);
            assert(count_named(h, "api-key"@) == 0);
            assert(count_named(h.drop_first(), "Authorization"@) == 0);
            assert(count_named(h, "Authorization"@) == 0);
        },
    }
}

/// Everything the transport needs for one call: where to send, which
/// headers to attach, and the body, sent as-is.
#[derive(Debug)]
pub struct PreparedRequest {
    pub uri: String,
    pub headers: Vec<(String, String)>,
    pub body: String,
}

impl Client {
    /// Resolves the URI and selects the headers for one call. A resolution
    /// failure — a gateway kind without a model identifier — is propagated
    /// unchanged; on success the prepared request carries the body as-is
    /// and exactly the headers of `request_headers`.
    pub fn prepare_request(
        &self,
        api_path: &str,
        body: &str,
        model_id: Option<&str>,
        api_version: Option<&str>,
    ) -> (r: Result<PreparedRequest, Error>)
        ensures
            r is Ok <==> (self@.api_type is OpenAI || model_id is Some),
            r matches Ok(p) ==> p.body@ == body@ && header_views(p.headers@) == request_headers(
                self@.api_type,
                self@.api_key,
            ),
            self@.api_type is OpenAI ==> (r matches Ok(p) && p.uri@ == direct_uri(
                self@.api_endpoint,
                api_path@,
            )),
            (self@.api_type is Azure || self@.api_type is AzureAD) ==> (model_id matches Some(mid)
                ==> (r matches Ok(p) && p.uri@ == gateway_uri(
                self@.api_endpoint,
                mid@,
                api_path@,
                version_or_default(api_version),
            ))),
            r matches Err(e) ==> e == Error::ClientError(
                crate::error::ClientErrorType::ModelIdMissingToGenerateApiUriForAzure,
            ),
    {
        let uri = match self.generate_api_uri(api_path, model_id, api_version) {
            Ok(u) => u,
            Err(e) => {
                return Err(e);
            },
        };
        let mut headers: Vec<(String, String)> = Vec::new();
        headers.push(("Content-Type".to_owned(), "application/json".to_owned()));
        match self.get_api_type() {
            ApiType::OpenAI => {
                let mut bearer = "Bearer ".to_owned();
                bearer.append(self.get_api_key().as_str());
                headers.push(("Authorization".to_owned(), bearer));
            },
            ApiType::Azure => {
                headers.push(("api-key".to_owned(), self.get_api_key()));
            },
            ApiType::AzureAD => {},
        }
        proof {
            assert(header_views(headers@) =~~= request_headers(self@.api_type, self@.api_key));
        }
        Ok(PreparedRequest { uri, headers, body: body.to_owned() })
    }
}

} // verus!
