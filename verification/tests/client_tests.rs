use openai_rust::ApiType;
use openai_rust::Auth;
use openai_rust::Client;
use openai_rust::ClientErrorType;
use openai_rust::Error;
use openai_rust::create_auth_with_given_api_key;

#[test]
fn it_should_create_openai_client_with_given_key_using_new_openai_client() {
    let api_key: String = String::from("12345abcd");
    let api_path: String = String::from("api/path");
    let auth: Auth = create_auth_with_given_api_key(&api_key);

    let client: Client = Client::new_openai_client(auth);
    assert_eq!(client.get_api_key(), api_key);
    assert_eq!(client.get_api_type(), ApiType::OpenAI);
    assert_eq!(client.get_api_endpoint(), "https://api.openai.com/v1/");
    assert_eq!(
        client.generate_api_uri(&api_path, None, None).unwrap(),
        String::from("https://api.openai.com/v1/engines/api/path")
    );
}

#[test]
fn it_should_create_openai_client_with_given_key_using_new() {
    let api_key: String = String::from("12345abcd");
    let api_path: String = String::from("api/path");
    let auth: Auth = create_auth_with_given_api_key(&api_key);

    let client: Client = Client::new(auth, "https://api.openai.com/v1/", ApiType::OpenAI);
    assert_eq!(client.get_api_key(), api_key);
    assert_eq!(client.get_api_type(), ApiType::OpenAI);
    assert_eq!(client.get_api_endpoint(), "https://api.openai.com/v1/");
    assert_eq!(
        client.generate_api_uri(&api_path, None, Some("not used")).unwrap(),
        String::from("https://api.openai.com/v1/engines/api/path")
    );
}

#[test]
fn it_should_create_openai_client_with_env_variables_using_from_env() {
    let api_key: String = String::from("12345abcd");
    let api_path: String = String::from("api/path");

    let auth: Auth = create_auth_with_given_api_key(&api_key);
    let client: Client = Client::new_openai_client(auth);
    assert_eq!(client.get_api_key(), api_key);
    assert_eq!(client.get_api_type(), ApiType::OpenAI);
    assert_eq!(client.get_api_endpoint(), "https://api.openai.com/v1/");
    assert_eq!(
        client.generate_api_uri(&api_path, Some("not"), Some("used")).unwrap(),
        String::from("https://api.openai.com/v1/engines/api/path")
    );
}

#[test]
fn it_should_create_openai_client_with_given_key_using_new_with_missing_slash_at_the_end_of_the_api_endpoint(
) {
    let api_key: String = String::from("12345abcd");
    let api_path: String = String::from("api/path");
    let auth: Auth = create_auth_with_given_api_key(&api_key);

    let client: Client = Client::new(auth, "https://api.openai.com/v1", ApiType::OpenAI);
    assert_eq!(client.get_api_key(), api_key);
    assert_eq!(client.get_api_type(), ApiType::OpenAI);
    assert_eq!(client.get_api_endpoint(), "https://api.openai.com/v1/");
    assert_eq!(
        client.generate_api_uri(&api_path, None, None).unwrap(),
        String::from("https://api.openai.com/v1/engines/api/path")
    );
}

#[test]
fn it_should_create_azure_openai_client_of_type_azure_with_given_key_using_new() {
    let api_key: String = String::from("12345abcd");
    let azure_api_version: String = String::from("2023-05-15");
    let azure_model_id: String = String::from("model-deployment-id");
    let azure_api_endpoint: String = String::from("https://my-resource-name.openai.azure.com/");
    let api_path: String = String::from("api/path");
    let auth: Auth = create_auth_with_given_api_key(&api_key);

    let client: Client = Client::new(auth, &azure_api_endpoint, ApiType::Azure);
    assert_eq!(client.get_api_key(), api_key);
    assert_eq!(client.get_api_type(), ApiType::Azure);
    assert_eq!(client.get_api_endpoint(), azure_api_endpoint);
    assert_eq!(
        client
            .generate_api_uri(&api_path, Some(&azure_model_id), Some(&azure_api_version))
            .unwrap(),
        String::from(
            "https://my-resource-name.openai.azure.com/openai/deployments/model-deployment-id/api/path?api-version=2023-05-15"
        )
    );
}

#[test]
fn it_should_create_azure_openai_client_of_type_azure_with_env_variables_using_from_env() {
    let api_key: String = String::from("12345abcd");
    let azure_api_version: String = String::from("2023-05-15");
    let azure_model_id: String = String::from("model-deployment-id");
    let azure_api_endpoint: String = String::from("https://my-resource-name.openai.azure.com/");
    let api_path: String = String::from("api/path");

    let auth: Auth = create_auth_with_given_api_key(&api_key);
    let client: Client = Client::new(auth, &azure_api_endpoint, ApiType::Azure);
    assert_eq!(client.get_api_key(), api_key);
    assert_eq!(client.get_api_type(), ApiType::Azure);
    assert_eq!(client.get_api_endpoint(), azure_api_endpoint);
    assert_eq!(
        client
            .generate_api_uri(&api_path, Some(&azure_model_id), Some(&azure_api_version))
            .unwrap(),
        String::from(
            "https://my-resource-name.openai.azure.com/openai/deployments/model-deployment-id/api/path?api-version=2023-05-15"
        )
    );
}

#[test]
fn it_should_create_azure_openai_client_of_type_azure_with_given_key_using_new_with_missing_slash_at_the_end_of_the_api_endpoint(
) {
    let api_key: String = String::from("12345abcd");
    let azure_api_version: String = String::from("2023-05-15");
    let azure_model_id: String = String::from("model-deployment-id");
    let azure_api_endpoint: String = String::from("https://my-resource-name.openai.azure.com/");
    let api_path: String = String::from("api/path");
    let auth: Auth = create_auth_with_given_api_key(&api_key);

    let client: Client = Client::new(auth, &azure_api_endpoint, ApiType::Azure);
    assert_eq!(client.get_api_key(), api_key);
    assert_eq!(client.get_api_type(), ApiType::Azure);
    assert_eq!(client.get_api_endpoint(), azure_api_endpoint);
    assert_eq!(
        client
            .generate_api_uri(&api_path, Some(&azure_model_id), Some(&azure_api_version))
            .unwrap(),
        String::from(
            "https://my-resource-name.openai.azure.com/openai/deployments/model-deployment-id/api/path?api-version=2023-05-15"
        )
    );
}

#[test]
fn it_should_create_azure_openai_client_of_type_azure_ad_with_given_key_using_new() {
    let api_key: String = String::from("12345abcd");
    let azure_api_version: String = String::from("2023-05-15");
    let azure_model_id: String = String::from("model-deployment-id");
    let azure_api_endpoint: String = String::from("https://my-resource-name.openai.azure.com/");
    let api_path: String = String::from("api/path");
    let auth: Auth = create_auth_with_given_api_key(&api_key);

    let client: Client = Client::new(auth, &azure_api_endpoint, ApiType::AzureAD);
    assert_eq!(client.get_api_key(), api_key);
    assert_eq!(client.get_api_type(), ApiType::AzureAD);
    assert_eq!(client.get_api_endpoint(), azure_api_endpoint);
    assert_eq!(
        client
            .generate_api_uri(&api_path, Some(&azure_model_id), Some(&azure_api_version))
            .unwrap(),
        String::from(
            "https://my-resource-name.openai.azure.com/openai/deployments/model-deployment-id/api/path?api-version=2023-05-15"
        )
    );
}

#[test]
fn it_should_create_azure_openai_client_of_type_azure_ad_with_env_variables_using_from_env() {
    let api_key: String = String::from("12345abcd");
    let azure_api_version: String = String::from("2023-05-15");
    let azure_model_id: String = String::from("model-deployment-id");
    let azure_api_endpoint: String = String::from("https://my-resource-name.openai.azure.com/");
    let api_path: String = String::from("api/path");

    let auth: Auth = create_auth_with_given_api_key(&api_key);
    let client: Client = Client::new(auth, &azure_api_endpoint, ApiType::AzureAD);
    assert_eq!(client.get_api_key(), api_key);
    assert_eq!(client.get_api_type(), ApiType::AzureAD);
    assert_eq!(client.get_api_endpoint(), azure_api_endpoint);
    assert_eq!(
        client
            .generate_api_uri(&api_path, Some(&azure_model_id), Some(&azure_api_version))
            .unwrap(),
        String::from(
            "https://my-resource-name.openai.azure.com/openai/deployments/model-deployment-id/api/path?api-version=2023-05-15"
        )
    );
}

#[test]
fn it_should_create_azure_openai_client_of_type_azure_ad_with_given_key_using_new_with_missing_slash_at_the_end_of_the_api_endpoint(
) {
    let api_key: String = String::from("12345abcd");
    let azure_api_version: String = String::from("2023-05-15");
    let azure_model_id: String = String::from("model-deployment-id");
    let azure_api_endpoint: String = String::from("https://my-resource-name.openai.azure.com/");
    let api_path: String = String::from("api/path");
    let auth: Auth = create_auth_with_given_api_key(&api_key);

    let client: Client = Client::new(auth, &azure_api_endpoint, ApiType::AzureAD);
    assert_eq!(client.get_api_key(), api_key);
    assert_eq!(client.get_api_type(), ApiType::AzureAD);
    assert_eq!(client.get_api_endpoint(), azure_api_endpoint);
    assert_eq!(
        client
            .generate_api_uri(&api_path, Some(&azure_model_id), Some(&azure_api_version))
            .unwrap(),
        String::from(
            "https://my-resource-name.openai.azure.com/openai/deployments/model-deployment-id/api/path?api-version=2023-05-15"
        )
    );
}

#[test]
fn it_should_use_default_api_version_when_it_is_set_to_none_for_azure() {
    let api_key: String = String::from("12345abcd");
    let azure_model_id: String = String::from("model-deployment-id");
    let azure_api_endpoint: String = String::from("https://my-resource-name.openai.azure.com/");
    let api_path: String = String::from("api/path");

    let auth: Auth = create_auth_with_given_api_key(&api_key);
    let client: Client = Client::new(auth, &azure_api_endpoint, ApiType::Azure);
    assert_eq!(
        client.generate_api_uri(&api_path, Some(&azure_model_id), None).unwrap(),
        String::from(
            "https://my-resource-name.openai.azure.com/openai/deployments/model-deployment-id/api/path?api-version=2023-05-15"
        )
    );
}

#[test]
fn it_should_use_default_api_version_when_it_is_set_to_none_for_azure_ad() {
    let api_key: String = String::from("12345abcd");
    let azure_model_id: String = String::from("model-deployment-id");
    let azure_api_endpoint: String = String::from("https://my-resource-name.openai.azure.com/");
    let api_path: String = String::from("api/path");

    let auth: Auth = create_auth_with_given_api_key(&api_key);
    let client: Client = Client::new(auth, &azure_api_endpoint, ApiType::AzureAD);
    assert_eq!(
        client.generate_api_uri(&api_path, Some(&azure_model_id), None).unwrap(),
        String::from(
            "https://my-resource-name.openai.azure.com/openai/deployments/model-deployment-id/api/path?api-version=2023-05-15"
        )
    );
}

#[test]
fn it_should_not_return_an_error_when_model_id_is_not_set_for_openai_type() {
    let api_key: String = String::from("12345abcd");
    let api_path: String = String::from("api/path");

    let auth: Auth = create_auth_with_given_api_key(&api_key);
    let client: Client = Client::new_openai_client(auth);
    let result = client.generate_api_uri(&api_path, None, Some("not used"));
    assert!(result.is_ok());
    assert_eq!(result.unwrap(), String::from("https://api.openai.com/v1/engines/api/path"));
}

#[test]
fn it_should_not_return_an_error_when_model_id_is_set_and_version_is_not_set_for_azure_type() {
    let api_key: String = String::from("12345abcd");
    let api_path: String = String::from("api/path");

    let auth: Auth = create_auth_with_given_api_key(&api_key);
    let client: Client = Client::new_openai_client(auth);
    let result = client.generate_api_uri(&api_path, Some("model-id"), None);
    assert!(result.is_ok());
    assert_eq!(result.unwrap(), String::from("https://api.openai.com/v1/engines/api/path"));
}

#[test]
fn it_should_return_an_error_when_model_id_is_not_set_for_azure_type() {
    let api_key: String = String::from("12345abcd");
    let azure_api_endpoint: String = String::from("https://my-resource-name.openai.azure.com/");
    let api_path: String = String::from("api/path");

    let auth: Auth = create_auth_with_given_api_key(&api_key);
    let client: Client = Client::new(auth, &azure_api_endpoint, ApiType::Azure);
    let result = client.generate_api_uri(&api_path, None, None);
    match result {
        Ok(_) => panic!("It should return an error"),
        Err(error) => assert_eq!(
            error,
            Error::ClientError(ClientErrorType::ModelIdMissingToGenerateApiUriForAzure)
        ),
    }
}

#[test]
fn it_should_return_an_error_when_model_id_is_not_set_for_azure_ad_type() {
    let api_key: String = String::from("12345abcd");
    let azure_api_endpoint: String = String::from("https://my-resource-name.openai.azure.com/");
    let api_path: String = String::from("api/path");

    let auth: Auth = create_auth_with_given_api_key(&api_key);
    let client: Client = Client::new(auth, &azure_api_endpoint, ApiType::Azure);
    let result = client.generate_api_uri(&api_path, None, None);
    match result {
        Ok(_) => panic!("It should return an error"),
        Err(error) => assert_eq!(
            error,
            Error::ClientError(ClientErrorType::ModelIdMissingToGenerateApiUriForAzure)
        ),
    }
}
