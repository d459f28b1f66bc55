//! Client library for a hosted chat-completion API that is exposed under two
//! provider contracts: a direct API, where the model identifier travels in the
//! JSON body, and a gateway (deployment-style) API, where the model identifier
//! is a URI path segment and an API version is a query parameter.
//!
//! The library covers the request builder with field-level validation, the
//! provider-aware endpoint URI resolution, the serialization of requests to
//! their JSON wire form, and the per-provider selection of authentication
//! headers. Network transport and credential loading from the environment are
//! left to the embedding application.

mod api_type;
mod auth;
mod chat_completion;
mod chat_error;
mod chat_message;
mod client;
mod dispatch;
mod error;
mod function_call;
mod function_definition;
pub mod json;
mod milli;
pub mod response;
mod role;

pub use api_type::ApiType;
pub use auth::Auth;
pub use auth::create_auth_with_given_api_key;
pub use chat_completion::ChatCompletion;
pub use chat_completion::ChatCompletionView;
pub use chat_completion::json_of_request;
pub use chat_completion::lemma_only_messages_member;
pub use chat_error::ChatCompletionError;
pub use chat_message::ChatMessage;
pub use chat_message::ChatMessageBuilder;
pub use chat_message::append_messages_json;
pub use chat_message::json_of_message;
pub use chat_message::json_of_messages;
pub use client::Client;
pub use client::ClientView;
pub use client::default_api_version;
pub use client::direct_uri;
pub use client::gateway_uri;
pub use client::lemma_normalize_trailing_slash;
pub use client::lemma_trailing_slash_never_changes_uri;
pub use client::spec_normalize;
pub use client::version_or_default;
pub use dispatch::PreparedRequest;
pub use dispatch::auth_headers;
pub use dispatch::count_named;
pub use dispatch::header_views;
pub use dispatch::lemma_credential_header_policy;
pub use dispatch::request_headers;
pub use error::ClientErrorType;
pub use error::Error;
pub use function_call::FunctionCall;
pub use function_definition::FunctionDefinition;
pub use milli::Milli;
pub use response::ChatCompletionResponse;
pub use response::Choice;
pub use response::Usage;
pub use role::Role;
