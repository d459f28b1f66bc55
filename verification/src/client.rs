use vstd::prelude::*;
use vstd::string::StrSliceExecFns;
use vstd::string::StringExecFns;
use crate::api_type::ApiType;
use crate::auth::Auth;
use crate::error::ClientErrorType;
use crate::error::Error;

verus! {

/// The endpoint as the client stores it: the configured base with a path
/// separator appended when it does not already end with one. Normalization
/// happens once, at construction, so repeated concatenation can never
/// produce a doubled or missing separator.
pub open spec fn spec_normalize(e: Seq<char>) -> Seq<char> {
    if e.len() > 0 && e[e.len() - 1] == '/' {
        e
    } else {
        e.push('/')
    }
}

/// The request URI of the direct API: the model identifier is not encoded
/// positionally, so the URI depends on the endpoint and the path alone.
pub open spec fn direct_uri(endpoint: Seq<char>, api_path: Seq<char>) -> Seq<char> {
    endpoint + "engines/"@ + api_path
}

/// The version substituted when a gateway call names none.
pub open spec fn default_api_version() -> Seq<char> {
    "2023-05-15"@
}

/// The version a gateway URI carries: the given one, or the default.
pub open spec fn version_or_default(v: Option<&str>) -> Seq<char> {
    match v {
        Some(s) => s@,
        None => default_api_version(),
    }
}

/// The request URI of the gateway API: the model identifier is a deployment
/// path segment and the API version is a query parameter.
pub open spec fn gateway_uri(
    endpoint: Seq<char>,
    model_id: Seq<char>,
    api_path: Seq<char>,
    api_version: Seq<char>,
) -> Seq<char> {
    endpoint + "openai/deployments/"@ + model_id + "/"@ + api_path + "?api-version="@ + api_version
}

/// A configured base without a trailing separator and the same base with
/// one normalize to the same endpoint.
pub proof fn lemma_normalize_trailing_slash(e: Seq<char>)
    requires
        e.len() == 0 || e[e.len() - 1] != '/',
    ensures
        spec_normalize(e.push('/')) == spec_normalize(e),
{
    assert(e.push('/')[e.push('/').len() - 1] == '/');
}

/// The presence or absence of a trailing separator on the configured base
/// never changes a resolved URI: for the same path, model and version, a
/// base without one and the same base with one yield the identical direct
/// URI and the identical gateway URI, because every URI is built from the
/// endpoint as normalized once at construction.
pub proof fn lemma_trailing_slash_never_changes_uri(
    e: Seq<char>,
    api_path: Seq<char>,
    model_id: Seq<char>,
    api_version: Seq<char>,
)
    requires
        e.len() == 0 || e[e.len() - 1] != '/',
    ensures
        direct_uri(spec_normalize(e.push('/')), api_path) == direct_uri(
            spec_normalize(e),
            api_path,
        ),
        gateway_uri(spec_normalize(e.push('/')), model_id, api_path, api_version) == gateway_uri(
            spec_normalize(e),
            model_id,
            api_path,
            api_version,
        ),
{
    lemma_normalize_trailing_slash(e);
}

/// The abstract value of a client: the normalized endpoint, the provider
/// kind, and the credential secret.
#[verifier::ext_equal]
pub struct ClientView {
    pub api_endpoint: Seq<char>,
    pub api_type: ApiType,
    pub api_key: Seq<char>,
}

/// A configured connection to one provider: the normalized base endpoint,
/// the provider kind, and the credential. Immutable after construction and
/// shared read-only across calls.
pub struct Client {
    api_endpoint: String,
    api_type: ApiType,
    auth: Auth,
}

impl View for Client {
    type V = ClientView;

    closed spec fn view(&self) -> ClientView {
        ClientView {
            api_endpoint: self.api_endpoint@,
            api_type: self.api_type,
            api_key: self.auth.api_key@,
        }
    }
}

impl Client {
    /// A client for the public direct API under its well-known endpoint.
    pub fn new_openai_client(auth: Auth) -> (r: Client)
        ensures
            r@ == (ClientView {
                api_endpoint: "https://api.openai.com/v1/"@,
                api_type: ApiType::OpenAI,
                api_key: auth.api_key@,
            }),
    {
        let r = Client::new(auth, "https://api.openai.com/v1/", ApiType::OpenAI);
        proof {
            reveal_strlit("https://api.openai.com/v1/");
            assert(spec_normalize("https://api.openai.com/v1/"@)
                == "https://api.openai.com/v1/"@);
        }
        r
    }

    /// A client for the given endpoint and provider kind. The endpoint is
    /// normalized here, once, to end with a path separator.
    pub fn new(auth: Auth, api_endpoint: &str, api_type: ApiType) -> (r: Client)
        ensures
            r@ == (ClientView {
                api_endpoint: spec_normalize(api_endpoint@),
                api_type,
                api_key: auth.api_key@,
            }),
    {
        let api_endpoint: String = Client::update_api_endpoint_to_have_a_slash_add_the_end(
            api_endpoint,
        );
        Client { api_endpoint, api_type, auth }
    }

    /// The credential secret, as given at construction.
    pub fn get_api_key(&self) -> (r: String)
        ensures
            r@ == self@.api_key,
    {
        self.auth.api_key.clone()
    }

    /// The provider kind, as given at construction.
    pub fn get_api_type(&self) -> (r: ApiType)
        ensures
            r == self@.api_type,
    {
        self.api_type
    }

    /// The normalized endpoint the client was constructed with.
    pub fn get_api_endpoint(&self) -> (r: String)
        ensures
            r@ == self@.api_endpoint,
    {
        self.api_endpoint.clone()
    }

    /// The single canonical request URI for this client and the given path.
    /// For the direct API the model identifier and version are accepted but
    /// ignored. For the gateway kinds the model identifier is mandatory —
    /// without it resolution fails — and a missing version falls back to
    /// the default.
    pub fn generate_api_uri(
        &self,
        api_path: &str,
        model_id: Option<&str>,
        api_version: Option<&str>,
    ) -> (r: Result<String, Error>)
        ensures
            self@.api_type is OpenAI ==> (r matches Ok(u) && u@ == direct_uri(
                self@.api_endpoint,
                api_path@,
            )),
            (self@.api_type is Azure || self@.api_type is AzureAD) ==> (model_id matches Some(mid)
                ==> (r matches Ok(u) && u@ == gateway_uri(
                self@.api_endpoint,
                mid@,
                api_path@,
                version_or_default(api_version),
            ))),
            (self@.api_type is Azure || self@.api_type is AzureAD) && model_id is None ==> (
            r matches Err(e) && e == Error::ClientError(
                ClientErrorType::ModelIdMissingToGenerateApiUriForAzure,
            )),
    {
        match self.api_type {
            ApiType::Azure | ApiType::AzureAD => {
                match model_id {
                    Some(model_id) => {
                        let version: &str = match api_version {
                            Some(v) => v,
                            None => "2023-05-15",
                        };
                        let mut u = self.api_endpoint.clone();
                        u.append("openai/deployments/");
                        u.append(model_id);
                        u.append("/");
                        u.append(api_path);
                        u.append("?api-version=");
                        u.append(version);
                        proof {
                            assert(version@ == version_or_default(api_version));
                            assert(u@ =~= gateway_uri(
                                self@.api_endpoint,
                                model_id@,
                                api_path@,
                                version_or_default(api_version),
                            ));
                        }
                        Ok(u)
                    },
                    None => Err(
                        Error::ClientError(
                            ClientErrorType::ModelIdMissingToGenerateApiUriForAzure,
                        ),
                    ),
                }
            },
            ApiType::OpenAI => {
                let mut u = self.api_endpoint.clone();
                u.append("engines/");
                u.append(api_path);
                proof {
                    assert(u@ =~= direct_uri(self@.api_endpoint, api_path@));
                }
                Ok(u)
            },
        }
    }

    fn update_api_endpoint_to_have_a_slash_add_the_end(api_endpoint: &str) -> (r: String)
        ensures
            r@ == spec_normalize(api_endpoint@),
    {
        let n = api_endpoint.unicode_len();
        if n > 0 && api_endpoint.get_char(n - 1) == '/' {
            api_endpoint.to_owned()
        } else {
            let mut s = api_endpoint.to_owned();
            s.append("/");
            proof {
                reveal_strlit("/");
                assert("/"@ =~= seq!['/']);
                assert(s@ =~= api_endpoint@.push('/'));
            }
            s
        }
    }
}

} // verus!
