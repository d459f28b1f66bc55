use openai_rust::ApiType;
use openai_rust::Client;
use openai_rust::ClientErrorType;
use openai_rust::Error;
use openai_rust::create_auth_with_given_api_key;

const BODY: &str = "{\"prompt\": \"Once upon a time\", \"max_tokens\": 5}";

#[test]
fn the_direct_api_gets_a_bearer_authorization_header() {
    let auth = create_auth_with_given_api_key("12345abcd");
    let client = Client::new(auth, "https://api.openai.com/v1/", ApiType::OpenAI);
    let prepared = client.prepare_request("chat/completions", BODY, None, None).unwrap();
    assert_eq!(prepared.uri, "https://api.openai.com/v1/engines/chat/completions");
    assert_eq!(prepared.body, BODY);
    assert_eq!(
        prepared.headers,
        vec![
            ("Content-Type".to_string(), "application/json".to_string()),
            ("Authorization".to_string(), "Bearer 12345abcd".to_string()),
        ]
    );
}

#[test]
fn the_key_based_gateway_gets_exactly_one_api_key_header() {
    let auth = create_auth_with_given_api_key("12345abcd");
    let client = Client::new(auth, "https://r.azure.com/", ApiType::Azure);
    let prepared = client
        .prepare_request("chat/completions", BODY, Some("dep-1"), Some("2023-05-15"))
        .unwrap();
    assert_eq!(
        prepared.uri,
        "https://r.azure.com/openai/deployments/dep-1/chat/completions?api-version=2023-05-15"
    );
    assert_eq!(
        prepared.headers,
        vec![
            ("Content-Type".to_string(), "application/json".to_string()),
            ("api-key".to_string(), "12345abcd".to_string()),
        ]
    );
    let carrying: Vec<&(String, String)> =
        prepared.headers.iter().filter(|h| h.0 == "api-key").collect();
    assert_eq!(carrying.len(), 1);
    assert_eq!(carrying[0].1, "12345abcd");
}

#[test]
fn managed_identity_never_gets_a_credential_bearing_header() {
    let auth = create_auth_with_given_api_key("12345abcd");
    let client = Client::new(auth, "https://r.azure.com/", ApiType::AzureAD);
    let prepared = client
        .prepare_request("chat/completions", BODY, Some("dep-1"), Some("2023-05-15"))
        .unwrap();
    assert_eq!(
        prepared.headers,
        vec![("Content-Type".to_string(), "application/json".to_string())]
    );
    for header in prepared.headers.iter() {
        assert_ne!(header.0, "api-key");
        assert_ne!(header.0, "Authorization");
        assert_ne!(header.1, "12345abcd");
    }
}

#[test]
fn a_gateway_dispatch_without_a_model_id_propagates_the_resolution_error() {
    let auth = create_auth_with_given_api_key("12345abcd");
    let client = Client::new(auth, "https://r.azure.com/", ApiType::Azure);
    let result = client.prepare_request("chat/completions", BODY, None, None);
    assert_eq!(
        result.unwrap_err(),
        Error::ClientError(ClientErrorType::ModelIdMissingToGenerateApiUriForAzure)
    );
}

#[test]
fn a_gateway_dispatch_without_a_version_uses_the_default() {
    let auth = create_auth_with_given_api_key("12345abcd");
    let client = Client::new(auth, "https://r.azure.com", ApiType::Azure);
    let prepared = client.prepare_request("chat/completions", BODY, Some("dep-1"), None).unwrap();
    assert_eq!(
        prepared.uri,
        "https://r.azure.com/openai/deployments/dep-1/chat/completions?api-version=2023-05-15"
    );
}

#[test]
fn the_direct_uri_never_carries_the_model_id() {
    let auth = create_auth_with_given_api_key("12345abcd");
    let client = Client::new(auth, "https://x.com/v1", ApiType::OpenAI);
    let uri = client
        .generate_api_uri("chat/completions", Some("model-deployment-id"), Some("2023-05-15"))
        .unwrap();
    assert_eq!(uri, "https://x.com/v1/engines/chat/completions");
    assert!(!uri.contains("model-deployment-id"));
}

#[test]
fn a_trailing_slash_on_the_base_never_changes_the_uri() {
    let auth_a = create_auth_with_given_api_key("12345abcd");
    let auth_b = create_auth_with_given_api_key("12345abcd");
    let with_slash = Client::new(auth_a, "https://x.com/v1/", ApiType::OpenAI);
    let without_slash = Client::new(auth_b, "https://x.com/v1", ApiType::OpenAI);
    assert_eq!(
        with_slash.generate_api_uri("chat/completions", None, None).unwrap(),
        without_slash.generate_api_uri("chat/completions", None, None).unwrap()
    );

    let auth_c = create_auth_with_given_api_key("12345abcd");
    let auth_d = create_auth_with_given_api_key("12345abcd");
    let gateway_with = Client::new(auth_c, "https://r.azure.com/", ApiType::Azure);
    let gateway_without = Client::new(auth_d, "https://r.azure.com", ApiType::Azure);
    assert_eq!(
        gateway_with.generate_api_uri("chat/completions", Some("dep-1"), None).unwrap(),
        gateway_without.generate_api_uri("chat/completions", Some("dep-1"), None).unwrap()
    );
}

#[test]
fn api_errors_render_their_status_and_message() {
    let error = Error::ApiError { status: 404, message: "deployment not found".to_string() };
    assert_eq!(error.label(), "ApiError");
    assert_eq!(error.error_message(), "(HTTP 404) deployment not found]");

    let missing = Error::ClientError(ClientErrorType::ModelIdMissingToGenerateApiUriForAzure);
    assert_eq!(missing.label(), "ClientError");
    assert_eq!(missing.error_message(), "Model ID is required to generate API URI for Azure");
}
