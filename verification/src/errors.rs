//! Errors that can occur at any point of a request, and how each one is
//! reported to the caller of the gateway.

use vstd::prelude::*;
use vstd::string::StringExecFns;

verus! {

/// Result type used throughout the gateway.
pub type ServiceResult<T> = Result<T, ServiceError>;

/// Every failure the gateway can report.
#[derive(Debug, Clone, PartialEq, Eq)]
pub enum ServiceError {
    /// The exchange with the authorization endpoint failed in transport or
    /// timed out.
    ClientRequestFailed(String),
    /// A stored parameter came back with neither a value nor a name.
    ParameterConfigurationNameEmpty,
    /// The parameter store could not be read.
    ParameterConfigurationFailedToLoad(String),
    /// The named parameter holds no value.
    ParameterConfigurationEmpty(String),
    /// Loading the configuration at startup was interrupted.
    LoadConfigurationFailed(String),
    /// A configuration document or an authorization response was not the
    /// JSON that was expected.
    ConfigurationDeserializationFailed(String),
    /// A request payload failed validation.
    RequestInvalid(String),
    /// A request body was not valid JSON.
    JsonParsingError(String),
    /// No access token is available.
    AccessTokenNotFound,
    /// No instance URL is available.
    InstanceUrlNotFound,
    /// A read or a query got no usable answer. The text names what was
    /// asked for, the status of the answer and its body.
    ObjectRetrievalFailed(String),
    /// Salesforce answered the read of this record with 404.
    ObjectNotFound { object_type: String, id: String },
    /// The organization header is absent or names no configured organization.
    InvalidOrganization(String),
    /// Salesforce rejected a create or update. The payload is the body of
    /// its answer, byte for byte.
    ObjectUpdateFailed(Vec<u8>),
}

/// The five families of failure.
#[derive(Debug, Clone, Copy, PartialEq, Eq, Structural)]
pub enum ErrorKind {
    Configuration,
    Authentication,
    Resolution,
    Object,
    Validation,
}

/// What the gateway answers with when a request fails.
#[derive(Debug, Clone, PartialEq, Eq)]
pub enum ErrorBody {
    /// A JSON object with the single member `message`.
    Message(String),
    /// The upstream payload, passed through byte for byte.
    Upstream(Vec<u8>),
}

pub open spec fn spec_kind(error: ServiceError) -> ErrorKind {
    match error {
        ServiceError::ClientRequestFailed(_) => ErrorKind::Authentication,
        ServiceError::ParameterConfigurationNameEmpty => ErrorKind::Configuration,
        ServiceError::ParameterConfigurationFailedToLoad(_) => ErrorKind::Configuration,
        ServiceError::ParameterConfigurationEmpty(_) => ErrorKind::Configuration,
        ServiceError::LoadConfigurationFailed(_) => ErrorKind::Configuration,
        ServiceError::ConfigurationDeserializationFailed(_) => ErrorKind::Configuration,
        ServiceError::RequestInvalid(_) => ErrorKind::Validation,
        ServiceError::JsonParsingError(_) => ErrorKind::Validation,
        ServiceError::AccessTokenNotFound => ErrorKind::Configuration,
        ServiceError::InstanceUrlNotFound => ErrorKind::Configuration,
        ServiceError::ObjectRetrievalFailed(_) => ErrorKind::Object,
        ServiceError::ObjectNotFound { .. } => ErrorKind::Object,
        ServiceError::InvalidOrganization(_) => ErrorKind::Resolution,
        ServiceError::ObjectUpdateFailed(_) => ErrorKind::Object,
    }
}

/// HTTP status the gateway answers with for `error`.
pub open spec fn spec_status_code(error: ServiceError) -> u16 {
    match error {
        ServiceError::RequestInvalid(_) => 422,
        ServiceError::ObjectNotFound { .. } => 404,
        ServiceError::InvalidOrganization(_) => 400,
        _ => 500,
    }
}

/// Text of `error`, as a sequence of characters.
pub open spec fn spec_message(error: ServiceError) -> Seq<char> {
    match error {
        ServiceError::ClientRequestFailed(m) => m@,
        ServiceError::ParameterConfigurationNameEmpty => "The parameter name was not found."@,
        ServiceError::ParameterConfigurationFailedToLoad(m) => m@,
        ServiceError::ParameterConfigurationEmpty(name) => "Parameter configuration "@ + name@
            + " is empty."@,
        ServiceError::LoadConfigurationFailed(m) => m@,
        ServiceError::ConfigurationDeserializationFailed(m) => m@,
        ServiceError::RequestInvalid(m) => m@,
        ServiceError::JsonParsingError(m) => m@,
        ServiceError::AccessTokenNotFound => "Access token was not found on the configuration."@,
        ServiceError::InstanceUrlNotFound => "A Salesforce instance URL was not found."@,
        ServiceError::ObjectRetrievalFailed(m) => m@,
        ServiceError::ObjectNotFound { .. } => "Object was not found."@,
        ServiceError::InvalidOrganization(m) => m@,
        ServiceError::ObjectUpdateFailed(_) =>
            "An error occurred while attempting to update the object."@,
    }
}

/// Whether the text of `error` is shown to the caller of the gateway, rather
/// than the generic text.
pub open spec fn spec_discloses_message(error: ServiceError) -> bool {
    match error {
        ServiceError::ParameterConfigurationNameEmpty => true,
        ServiceError::ParameterConfigurationFailedToLoad(_) => true,
        ServiceError::LoadConfigurationFailed(_) => true,
        ServiceError::ConfigurationDeserializationFailed(_) => true,
        ServiceError::RequestInvalid(_) => true,
        ServiceError::ObjectNotFound { .. } => true,
        ServiceError::InvalidOrganization(_) => true,
        _ => false,
    }
}

impl ServiceError {
    /// The family this error belongs to.
    pub fn kind(&self) -> (kind: ErrorKind)
        ensures
            kind == spec_kind(*self),
    {
        match self {
            ServiceError::ClientRequestFailed(_) => ErrorKind::Authentication,
            ServiceError::ParameterConfigurationNameEmpty => ErrorKind::Configuration,
            ServiceError::ParameterConfigurationFailedToLoad(_) => ErrorKind::Configuration,
            ServiceError::ParameterConfigurationEmpty(_) => ErrorKind::Configuration,
            ServiceError::LoadConfigurationFailed(_) => ErrorKind::Configuration,
            ServiceError::ConfigurationDeserializationFailed(_) => ErrorKind::Configuration,
            ServiceError::RequestInvalid(_) => ErrorKind::Validation,
            ServiceError::JsonParsingError(_) => ErrorKind::Validation,
            ServiceError::AccessTokenNotFound => ErrorKind::Configuration,
            ServiceError::InstanceUrlNotFound => ErrorKind::Configuration,
            ServiceError::ObjectRetrievalFailed(_) => ErrorKind::Object,
            ServiceError::ObjectNotFound { .. } => ErrorKind::Object,
            ServiceError::InvalidOrganization(_) => ErrorKind::Resolution,
            ServiceError::ObjectUpdateFailed(_) => ErrorKind::Object,
        }
    }

    /// Whether trying the same operation again may succeed. Only a failure
    /// of transport while a session is acquired is retryable.
    pub fn is_retryable(&self) -> (retryable: bool)
        ensures
            retryable == (spec_kind(*self) == ErrorKind::Authentication),
    {
        match self {
            ServiceError::ClientRequestFailed(_) => true,
            _ => false,
        }
    }

    /// The text of this error.
    pub fn message(&self) -> (text: String)
        ensures
            text@ == spec_message(*self),
    {
        match self {
            ServiceError::ClientRequestFailed(m) => m.clone(),
            ServiceError::ParameterConfigurationNameEmpty => {
                "The parameter name was not found.".to_owned()
            },
            ServiceError::ParameterConfigurationFailedToLoad(m) => m.clone(),
            ServiceError::ParameterConfigurationEmpty(name) => {
                let text = "Parameter configuration ".to_owned();
                let text = text.concat(name.as_str());
                text.concat(" is empty.")
            },
            ServiceError::LoadConfigurationFailed(m) => m.clone(),
            ServiceError::ConfigurationDeserializationFailed(m) => m.clone(),
            ServiceError::RequestInvalid(m) => m.clone(),
            ServiceError::JsonParsingError(m) => m.clone(),
            ServiceError::AccessTokenNotFound => {
                "Access token was not found on the configuration.".to_owned()
            },
            ServiceError::InstanceUrlNotFound => {
                "A Salesforce instance URL was not found.".to_owned()
            },
            ServiceError::ObjectRetrievalFailed(m) => m.clone(),
            ServiceError::ObjectNotFound { .. } => "Object was not found.".to_owned(),
            ServiceError::InvalidOrganization(m) => m.clone(),
            ServiceError::ObjectUpdateFailed(_) => {
                "An error occurred while attempting to update the object.".to_owned()
            },
        }
    }

    /// HTTP status the gateway answers with for this error.
    pub fn status_code(&self) -> (status: u16)
        ensures
            status == spec_status_code(*self),
            400 <= status < 600,
    {
        match self {
            ServiceError::RequestInvalid(_) => 422,
            ServiceError::ObjectNotFound { .. } => 404,
            ServiceError::InvalidOrganization(_) => 400,
            _ => 500,
        }
    }

    /// Status and body of the answer for this error. A rejected create or
    /// update answers with the upstream payload; an error whose text may be
    /// disclosed answers with that text; every other error answers with a
    /// generic text.
    pub fn into_response(self) -> (response: (u16, ErrorBody))
        ensures
            response.0 == spec_status_code(self),
            match self {
                ServiceError::ObjectUpdateFailed(payload) => response.1 == ErrorBody::Upstream(
                    payload,
                ),
                _ => response.1 matches ErrorBody::Message(text) && text@ == (
                if spec_discloses_message(self) {
                    spec_message(self)
                } else {
                    "Unexpected error occurred."@
                }),
            },
    {
        let status = self.status_code();
        let body = match self {
            ServiceError::ObjectUpdateFailed(payload) => ErrorBody::Upstream(payload),
            ServiceError::ParameterConfigurationNameEmpty
            | ServiceError::ParameterConfigurationFailedToLoad(_)
            | ServiceError::LoadConfigurationFailed(_)
            | ServiceError::ConfigurationDeserializationFailed(_)
            | ServiceError::RequestInvalid(_)
            | ServiceError::ObjectNotFound { .. }
            | ServiceError::InvalidOrganization(_) => ErrorBody::Message(self.message()),
            _ => ErrorBody::Message("Unexpected error occurred.".to_owned()),
        };
        (status, body)
    }
}

} // verus!
