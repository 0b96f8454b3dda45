use salesforce_api::config::{
    AggregateSystemConfiguration, SalesforceConfiguration, ServiceConfiguration,
};
use salesforce_api::errors::ServiceError;
use salesforce_api::organization::SalesforceOrganization;
use salesforce_api::salesforce::resolver::SalesforceServiceResolver;
use salesforce_api::salesforce::service::{
    AccessTokenResponse, AuthorizationOutcome, TokenDecision,
};
use salesforce_api::token::Phase;

const ORGANIZATIONS: [SalesforceOrganization; 3] = [
    SalesforceOrganization::NationalFunding,
    SalesforceOrganization::QuickBridge,
    SalesforceOrganization::Underwriting,
];

fn credentials(tag: &str) -> SalesforceConfiguration {
    SalesforceConfiguration {
        salesforce_url: format!("https://login.example/{tag}/token"),
        user_name: format!("{tag}-user"),
        password: format!("{tag}-password"),
        consumer_key: format!("{tag}-key"),
        consumer_secret: format!("{tag}-secret"),
    }
}

fn resolver() -> SalesforceServiceResolver {
    SalesforceServiceResolver::new(AggregateSystemConfiguration {
        uw_salesforce_config: credentials("uw"),
        nf_salesforce_config: credentials("nf"),
        qb_salesforce_config: credentials("qb"),
        service_config: ServiceConfiguration {
            encryption_base_uri: "https://encryption.example".to_string(),
            timeout_seconds: Some(9),
            port: None,
        },
    })
}

#[test]
fn every_organization_has_its_own_client() {
    let resolver = resolver();
    let tags = ["nf", "qb", "uw"];
    for (organization, tag) in ORGANIZATIONS.into_iter().zip(tags) {
        let service = resolver.resolve(organization);
        assert_eq!(service.organization(), organization);
        assert_eq!(service.config(), &credentials(tag));
        assert_eq!(service.timeout_seconds(), 9);
        assert_eq!(service.token().phase_at(0), Phase::Empty);
    }
}

#[test]
fn resolve_gives_distinct_clients_and_the_same_one_each_time() {
    let resolver = resolver();
    for a in ORGANIZATIONS {
        assert!(std::ptr::eq(resolver.resolve(a), resolver.resolve(a)));
        for b in ORGANIZATIONS {
            assert_eq!(
                std::ptr::eq(resolver.resolve(a), resolver.resolve(b)),
                a == b
            );
            assert_eq!(
                resolver.resolve(a).organization() == resolver.resolve(b).organization(),
                a == b
            );
        }
    }
}

#[test]
fn a_session_belongs_to_one_organization_only() {
    let mut resolver = resolver();
    let service = resolver.resolve_mut(SalesforceOrganization::QuickBridge);
    assert!(matches!(
        service.get_access_token_at(100),
        TokenDecision::Refresh(_)
    ));
    let granted = AuthorizationOutcome::Responded(AccessTokenResponse {
        access_token: Some("qb-token".to_string()),
        instance_url: Some("https://qb.example".to_string()),
    });
    assert!(service.complete_refresh_at(granted, 100).is_ok());
    assert_eq!(
        resolver
            .resolve(SalesforceOrganization::QuickBridge)
            .token()
            .phase_at(101),
        Phase::Valid
    );
    assert_eq!(
        resolver
            .resolve(SalesforceOrganization::NationalFunding)
            .token()
            .phase_at(101),
        Phase::Empty
    );
    assert_eq!(
        resolver
            .resolve(SalesforceOrganization::Underwriting)
            .token()
            .phase_at(101),
        Phase::Empty
    );
    assert_eq!(
        resolver
            .resolve(SalesforceOrganization::QuickBridge)
            .organization(),
        SalesforceOrganization::QuickBridge
    );
}

#[test]
fn unknown_organization_reaches_no_client() {
    let resolver = resolver();
    assert_eq!(
        resolver.resolve_header(Some(b"Acme".as_slice())).err(),
        Some(ServiceError::InvalidOrganization(
            "Acme is not a valid organization.".to_string()
        ))
    );
    for organization in ORGANIZATIONS {
        let service = resolver.resolve(organization);
        assert!(!service.refresh_in_flight());
        assert_eq!(service.token().phase_at(0), Phase::Empty);
    }
}

#[test]
fn request_without_header_reaches_no_client() {
    let resolver = resolver();
    assert_eq!(
        resolver.resolve_header(None).err(),
        Some(ServiceError::InvalidOrganization(
            "Salesforce organization header was not found.".to_string()
        ))
    );
}

#[test]
fn header_that_is_not_text_reaches_no_client() {
    let resolver = resolver();
    assert_eq!(
        resolver.resolve_header(Some(&[0xffu8, 0xfe][..])).err(),
        Some(ServiceError::InvalidOrganization(
            "failed to convert header to a str".to_string()
        ))
    );
}

#[test]
fn header_resolves_to_the_named_client() {
    let mut resolver = resolver();
    let service = resolver
        .resolve_header(Some(b"Underwriting".as_slice()))
        .unwrap();
    assert_eq!(service.organization(), SalesforceOrganization::Underwriting);
    let organization = resolver
        .resolve_header(Some(b"NationalFunding".as_slice()))
        .unwrap()
        .organization();
    assert_eq!(organization, SalesforceOrganization::NationalFunding);
    assert!(matches!(
        resolver.resolve_mut(organization).get_access_token_at(0),
        TokenDecision::Refresh(_)
    ));
    assert!(resolver
        .resolve(SalesforceOrganization::NationalFunding)
        .refresh_in_flight());
}
