use vstd::prelude::*;
use vstd::string::StringExecFns;
use crate::json::dec_str;
use crate::json::u64_to_string;

verus! {

/// Why a client call failed before or after the network: the provider
/// answered with an error status, or the request could not be formed.
#[derive(Clone, Debug, PartialEq, Eq)]
pub enum Error {
    ApiError { status: u16, message: String },
    ClientError(ClientErrorType),
}

/// The locally detectable client-side failures.
#[derive(Clone, Copy, Debug, PartialEq, Eq, Structural)]
pub enum ClientErrorType {
    ModelIdMissingToGenerateApiUriForAzure,
}

/// The short tag naming an error's kind.
pub open spec fn error_label(e: Error) -> Seq<char> {
    match e {
        Error::ApiError { .. } => "ApiError"@,
        Error::ClientError(_) => "ClientError"@,
    }
}

/// The human-readable rendering of an error.
pub open spec fn error_message_text(e: Error) -> Seq<char> {
    match e {
        Error::ApiError { status, message } => "(HTTP "@ + dec_str(status as nat) + ") "@
            + message@ + seq![']'],
        Error::ClientError(ClientErrorType::ModelIdMissingToGenerateApiUriForAzure) =>
            "Model ID is required to generate API URI for Azure"@,
    }
}

impl Error {
    /// The short tag naming this error's kind.
    pub fn label(&self) -> (r: &'static str)
        ensures
            r@ == error_label(*self),
    {
        match self {
            Error::ApiError { .. } => "ApiError",
            Error::ClientError(_) => "ClientError",
        }
    }

    /// The human-readable rendering of this error.
    pub fn error_message(&self) -> (r: String)
        ensures
            r@ == error_message_text(*self),
    {
        match self {
            Error::ApiError { status, message } => {
                let mut s = "(HTTP ".to_owned();
                s.append(u64_to_string(*status as u64).as_str());
                s.append(") ");
                s.append(message.as_str());
                s.append("]");
                proof {
                    reveal_strlit("]");
                    assert("]"@ =~= seq![']']);
                    assert(s@ =~= error_message_text(*self));
                }
                s
            },
            Error::ClientError(ClientErrorType::ModelIdMissingToGenerateApiUriForAzure) => {
                "Model ID is required to generate API URI for Azure".to_owned()
            },
        }
    }
}

} // verus!
