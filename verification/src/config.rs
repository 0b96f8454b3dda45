//! Configuration the gateway is started with: one set of credentials for
//! each organization and the settings that all of them share.

use crate::errors::ServiceError;
use crate::organization::SalesforceOrganization;
use vstd::prelude::*;

verus! {

/// Seconds an outbound call may take when the configuration names no limit.
pub const DEFAULT_TIMEOUT_SECONDS: u64 = 5;

/// Port the gateway listens on when the configuration names none.
pub const DEFAULT_PORT: u16 = 8080;

/// Password-grant credentials of one organization.
#[derive(Debug, Clone, PartialEq, Eq)]
pub struct SalesforceConfiguration {
    pub salesforce_url: String,
    pub user_name: String,
    pub password: String,
    pub consumer_key: String,
    pub consumer_secret: String,
}

/// Mathematical value of a `SalesforceConfiguration`.
pub struct CredentialsView {
    pub salesforce_url: Seq<char>,
    pub user_name: Seq<char>,
    pub password: Seq<char>,
    pub consumer_key: Seq<char>,
    pub consumer_secret: Seq<char>,
}

impl View for SalesforceConfiguration {
    type V = CredentialsView;

    open spec fn view(&self) -> CredentialsView {
        CredentialsView {
            salesforce_url: self.salesforce_url@,
            user_name: self.user_name@,
            password: self.password@,
            consumer_key: self.consumer_key@,
            consumer_secret: self.consumer_secret@,
        }
    }
}

impl SalesforceConfiguration {
    /// A copy that holds the same credentials.
    pub fn duplicate(&self) -> (copy: Self)
        ensures
            copy@ == self@,
    {
        SalesforceConfiguration {
            salesforce_url: self.salesforce_url.clone(),
            user_name: self.user_name.clone(),
            password: self.password.clone(),
            consumer_key: self.consumer_key.clone(),
            consumer_secret: self.consumer_secret.clone(),
        }
    }
}

/// Settings shared by every organization.
#[derive(Debug, Clone, PartialEq, Eq)]
pub struct ServiceConfiguration {
    pub encryption_base_uri: String,
    pub timeout_seconds: Option<u64>,
    pub port: Option<u16>,
}

impl ServiceConfiguration {
    pub open spec fn spec_timeout(&self) -> u64 {
        match self.timeout_seconds {
            Some(seconds) => seconds,
            None => DEFAULT_TIMEOUT_SECONDS,
        }
    }

    pub open spec fn spec_listen_port(&self) -> u16 {
        match self.port {
            Some(port) => port,
            None => DEFAULT_PORT,
        }
    }

    /// Seconds an outbound call may take: the configured limit, or five.
    pub fn timeout(&self) -> (seconds: u64)
        ensures
            seconds == self.spec_timeout(),
    {
        match self.timeout_seconds {
            Some(seconds) => seconds,
            None => DEFAULT_TIMEOUT_SECONDS,
        }
    }

    /// Port to listen on: the configured one, or 8080.
    pub fn listen_port(&self) -> (port: u16)
        ensures
            port == self.spec_listen_port(),
    {
        match self.port {
            Some(port) => port,
            None => DEFAULT_PORT,
        }
    }
}

/// Everything the gateway is started with.
#[derive(Debug, Clone, PartialEq, Eq)]
pub struct AggregateSystemConfiguration {
    pub uw_salesforce_config: SalesforceConfiguration,
    pub nf_salesforce_config: SalesforceConfiguration,
    pub qb_salesforce_config: SalesforceConfiguration,
    pub service_config: ServiceConfiguration,
}

impl AggregateSystemConfiguration {
    /// Credentials configured for `organization`.
    pub open spec fn spec_credentials(
        &self,
        organization: SalesforceOrganization,
    ) -> CredentialsView {
        match organization {
            SalesforceOrganization::NationalFunding => self.nf_salesforce_config@,
            SalesforceOrganization::QuickBridge => self.qb_salesforce_config@,
            SalesforceOrganization::Underwriting => self.uw_salesforce_config@,
        }
    }

    /// Credentials configured for `organization`.
    pub fn credentials(&self, organization: SalesforceOrganization) -> (found:
        &SalesforceConfiguration)
        ensures
            found@ == self.spec_credentials(organization),
    {
        match organization {
            SalesforceOrganization::NationalFunding => &self.nf_salesforce_config,
            SalesforceOrganization::QuickBridge => &self.qb_salesforce_config,
            SalesforceOrganization::Underwriting => &self.uw_salesforce_config,
        }
    }
}

/// Path in the parameter store of the settings that all organizations share.
pub open spec fn spec_service_parameter() -> Seq<char> {
    "/services/DLPEvent/configSection/App"@
}

/// Path in the parameter store of the credentials of `organization`.
pub open spec fn spec_credentials_parameter(organization: SalesforceOrganization) -> Seq<char> {
    match organization {
        SalesforceOrganization::NationalFunding =>
            "/globals/salesforce/NationalFunding.Gen1/nfautomationuser"@,
        SalesforceOrganization::QuickBridge => "/globals/salesforce.qb.qbautomationuser"@,
        SalesforceOrganization::Underwriting => "/globals/salesforce/uw"@,
    }
}

/// Path in the parameter store of the settings that all organizations share.
pub fn service_parameter() -> (path: String)
    ensures
        path@ == spec_service_parameter(),
{
    "/services/DLPEvent/configSection/App".to_owned()
}

/// Path in the parameter store of the credentials of `organization`.
pub fn credentials_parameter(organization: SalesforceOrganization) -> (path: String)
    ensures
        path@ == spec_credentials_parameter(organization),
{
    match organization {
        SalesforceOrganization::NationalFunding => {
            "/globals/salesforce/NationalFunding.Gen1/nfautomationuser".to_owned()
        },
        SalesforceOrganization::QuickBridge => {
            "/globals/salesforce.qb.qbautomationuser".to_owned()
        },
        SalesforceOrganization::Underwriting => "/globals/salesforce/uw".to_owned(),
    }
}

/// What the parameter store returns for one path: the parameter's name and
/// its value, either of which may be missing.
#[derive(Debug, Clone, PartialEq, Eq)]
pub struct Parameter {
    pub name: Option<String>,
    pub value: Option<String>,
}

/// The parameter found at `path`, or the error for a path that holds none.
pub fn require_parameter(found: Option<Parameter>, path: &str) -> (parameter: Result<
    Parameter,
    ServiceError,
>)
    ensures
        match found {
            Some(p) => parameter == Ok::<Parameter, ServiceError>(p),
            None => parameter matches Err(ServiceError::ParameterConfigurationEmpty(name))
                && name@ == path@,
        },
{
    match found {
        Some(p) => Ok(p),
        None => Err(ServiceError::ParameterConfigurationEmpty(path.to_owned())),
    }
}

/// The JSON document held by `parameter`. A parameter without a value is
/// reported by its name, or as nameless where it has no name either.
pub fn resolve_config_from_json(parameter: &Parameter) -> (document: Result<String, ServiceError>)
    ensures
        match (parameter.value, parameter.name) {
            (Some(value), _) => document matches Ok(text) && text@ == value@,
            (None, Some(name)) => document matches Err(
                ServiceError::ParameterConfigurationEmpty(reported),
            ) && reported@ == name@,
            (None, None) => document == Err::<String, ServiceError>(
                ServiceError::ParameterConfigurationNameEmpty,
            ),
        },
{
    match &parameter.value {
        None => match &parameter.name {
            None => Err(ServiceError::ParameterConfigurationNameEmpty),
            Some(name) => Err(ServiceError::ParameterConfigurationEmpty(name.clone())),
        },
        Some(value) => Ok(value.clone()),
    }
}

} // verus!
