//! The fixed set of clients, one for each organization, and the way from an
//! organization to its client.

use crate::config::AggregateSystemConfiguration;
use crate::errors::ServiceError;
use crate::organization::{header_bytes, spec_from_header_value, SalesforceOrganization};
use crate::salesforce::lifecycle::ServiceView;
use crate::salesforce::service::SalesforceService;
use vstd::prelude::*;

verus! {

/// Holds the client of every organization. The clients are made once, when
/// the resolver is made, and none is added or taken away afterwards.
#[derive(Debug)]
pub struct SalesforceServiceResolver {
    uw_service: SalesforceService,
    nf_service: SalesforceService,
    qb_service: SalesforceService,
}

/// What resolving the organization header of a request yields, given the
/// value of the header if the request has one: the organization, or the
/// text of the error.
pub open spec fn spec_resolve_header(header: Option<Seq<u8>>) -> Result<
    SalesforceOrganization,
    Seq<char>,
> {
    match header {
        Some(value) => spec_from_header_value(value),
        None => Err("Salesforce organization header was not found."@),
    }
}

impl SalesforceServiceResolver {
    /// The client that stands for `organization`.
    pub closed spec fn spec_client(&self, organization: SalesforceOrganization) -> ServiceView {
        match organization {
            SalesforceOrganization::NationalFunding => self.nf_service@,
            SalesforceOrganization::QuickBridge => self.qb_service@,
            SalesforceOrganization::Underwriting => self.uw_service@,
        }
    }

    /// Every client acts for the organization it stands for.
    pub open spec fn wf(&self) -> bool {
        forall|organization: SalesforceOrganization|
            (#[trigger] self.spec_client(organization)).organization == organization
    }

    /// One client for each organization, made from that organization's
    /// credentials and the shared settings. Each starts with nothing cached
    /// and no refresh in flight.
    pub fn new(aggregate_system_configuration: AggregateSystemConfiguration) -> (resolver: Self)
        ensures
            resolver.wf(),
            forall|organization: SalesforceOrganization|
                #[trigger] resolver.spec_client(organization) == (ServiceView {
                    organization,
                    credentials: aggregate_system_configuration.spec_credentials(organization),
                    timeout_seconds: aggregate_system_configuration.service_config.spec_timeout(),
                    session: None,
                    refresh_in_flight: false,
                }),
    {
        let service_configuration = aggregate_system_configuration.service_config;
        SalesforceServiceResolver {
            uw_service: SalesforceService::new(
                SalesforceOrganization::Underwriting,
                aggregate_system_configuration.uw_salesforce_config,
                &service_configuration,
            ),
            nf_service: SalesforceService::new(
                SalesforceOrganization::NationalFunding,
                aggregate_system_configuration.nf_salesforce_config,
                &service_configuration,
            ),
            qb_service: SalesforceService::new(
                SalesforceOrganization::QuickBridge,
                aggregate_system_configuration.qb_salesforce_config,
                &service_configuration,
            ),
        }
    }

    /// The client of `organization`. Every organization has one, so this
    /// never fails, and asking again gives the same client.
    pub fn resolve(&self, organization: SalesforceOrganization) -> (service: &SalesforceService)
        ensures
            service@ == self.spec_client(organization),
            self.wf() ==> service@.organization == organization,
    {
        match organization {
            SalesforceOrganization::NationalFunding => &self.nf_service,
            SalesforceOrganization::QuickBridge => &self.qb_service,
            SalesforceOrganization::Underwriting => &self.uw_service,
        }
    }

    /// The client of `organization`, to run an operation on. What the
    /// operation does to the client is what it does to the resolver's client
    /// of that organization; the clients of the other organizations are not
    /// touched.
    pub fn resolve_mut(&mut self, organization: SalesforceOrganization) -> (service:
        &mut SalesforceService)
        ensures
            service@ == old(self).spec_client(organization),
            final(self).spec_client(organization) == final(service)@,
            forall|other: SalesforceOrganization|
                other != organization ==> #[trigger] final(self).spec_client(other) == old(
                    self,
                ).spec_client(other),
    {
        match organization {
            SalesforceOrganization::NationalFunding => &mut self.nf_service,
            SalesforceOrganization::QuickBridge => &mut self.qb_service,
            SalesforceOrganization::Underwriting => &mut self.uw_service,
        }
    }

    /// The client a request is made for, given the value of its organization
    /// header if it has one. A request without the header, or with a header
    /// that names no configured organization, is rejected: no client is
    /// reached.
    pub fn resolve_header(&self, header: Option<&[u8]>) -> (resolved: Result<
        &SalesforceService,
        ServiceError,
    >)
        ensures
            match spec_resolve_header(header_bytes(header)) {
                Ok(organization) => resolved matches Ok(service) && service@ == self.spec_client(
                    organization,
                ),
                Err(text) => resolved matches Err(ServiceError::InvalidOrganization(message))
                    && message@ == text,
            },
    {
        match header {
            None => Err(
                ServiceError::InvalidOrganization(
                    "Salesforce organization header was not found.".to_owned(),
                ),
            ),
            Some(value) => match SalesforceOrganization::try_from(value) {
                Ok(organization) => Ok(self.resolve(organization)),
                Err(error) => Err(ServiceError::InvalidOrganization(error.message())),
            },
        }
    }
}

/// Different organizations are resolved to different clients, and each
/// client acts for the organization it was resolved for.
pub proof fn lemma_resolve_is_injective(
    resolver: SalesforceServiceResolver,
    a: SalesforceOrganization,
    b: SalesforceOrganization,
)
    requires
        resolver.wf(),
    ensures
        resolver.spec_client(a).organization == a,
        a != b ==> resolver.spec_client(a) != resolver.spec_client(b),
{
}

} // verus!
