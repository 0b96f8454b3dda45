use salesforce_api::config::{SalesforceConfiguration, ServiceConfiguration};
use salesforce_api::errors::ServiceError;
use salesforce_api::organization::SalesforceOrganization;
use salesforce_api::requests::CreateObjectRecordRequest;
use salesforce_api::salesforce::service::{
    AccessTokenResponse, AuthorizationOutcome, AuthorizationRequest, Dispatch, Method,
    ObjectRequest, SalesforceService, TokenDecision,
};
use salesforce_api::token::{Phase, Session};
use serde_json::Value;

fn credentials() -> SalesforceConfiguration {
    SalesforceConfiguration {
        salesforce_url: "https://login.example/services/oauth2/token".to_string(),
        user_name: "robot@example.com".to_string(),
        password: "hunter2".to_string(),
        consumer_key: "key-123".to_string(),
        consumer_secret: "secret-456".to_string(),
    }
}

fn settings() -> ServiceConfiguration {
    ServiceConfiguration {
        encryption_base_uri: "https://encryption.example".to_string(),
        timeout_seconds: None,
        port: None,
    }
}

fn client() -> SalesforceService {
    SalesforceService::new(SalesforceOrganization::QuickBridge, credentials(), &settings())
}

fn exchange() -> AuthorizationRequest {
    AuthorizationRequest {
        url: "https://login.example/services/oauth2/token".to_string(),
        grant_type: "password".to_string(),
        client_id: "key-123".to_string(),
        client_secret: "secret-456".to_string(),
        username: "robot@example.com".to_string(),
        password: "hunter2".to_string(),
    }
}

fn granted(token: &str, url: &str) -> AuthorizationOutcome {
    AuthorizationOutcome::Responded(AccessTokenResponse {
        access_token: Some(token.to_string()),
        instance_url: Some(url.to_string()),
    })
}

fn session(token: &str, url: &str, expires_at: i64) -> Session {
    Session {
        access_token: token.to_string(),
        instance_url: url.to_string(),
        expires_at,
    }
}

fn authorized_client(now: i64) -> SalesforceService {
    let mut service = client();
    assert_eq!(
        service.get_access_token_at(now),
        TokenDecision::Refresh(exchange())
    );
    assert!(service
        .complete_refresh_at(granted("token-1", "https://eu1.example"), now)
        .is_ok());
    service
}

#[test]
fn new_client_has_nothing_cached() {
    let service = client();
    assert_eq!(service.organization(), SalesforceOrganization::QuickBridge);
    assert_eq!(service.config(), &credentials());
    assert_eq!(service.timeout_seconds(), 5);
    assert_eq!(service.token().phase_at(0), Phase::Empty);
    assert!(!service.refresh_in_flight());
}

#[test]
fn new_client_takes_configured_timeout() {
    let configured = ServiceConfiguration {
        encryption_base_uri: String::new(),
        timeout_seconds: Some(42),
        port: Some(1),
    };
    let service =
        SalesforceService::new(SalesforceOrganization::Underwriting, credentials(), &configured);
    assert_eq!(service.timeout_seconds(), 42);
}

#[test]
fn authorization_request_carries_the_password_grant() {
    assert_eq!(client().authorization_request(), exchange());
}

#[test]
fn fresh_client_authorizes_once_then_uses_the_cache() {
    let mut service = client();
    assert_eq!(
        service.get_object_by_id_at("Account", "001", 1_000),
        Dispatch::Authorize(exchange())
    );
    assert!(service.refresh_in_flight());
    assert_eq!(
        service.complete_refresh_at(granted("token-1", "https://eu1.example"), 1_001),
        Ok(session("token-1", "https://eu1.example", 2_801))
    );
    assert!(!service.refresh_in_flight());
    let mut authorizations = 0;
    for now in [1_001, 1_500, 2_000, 2_800] {
        match service.get_object_by_id_at("Account", "001", now) {
            Dispatch::Send(request) => assert_eq!(request.bearer_token, "token-1"),
            Dispatch::Authorize(_) => authorizations += 1,
            Dispatch::AwaitRefresh => panic!("nothing is in flight"),
        }
    }
    assert_eq!(authorizations, 0);
}

#[test]
fn concurrent_callers_share_one_refresh() {
    let mut service = client();
    let mut refreshes = 0;
    let mut waiting = 0;
    for _ in 0..8 {
        match service.get_access_token_at(500) {
            TokenDecision::Refresh(request) => {
                assert_eq!(request, exchange());
                refreshes += 1;
            }
            TokenDecision::AwaitRefresh => waiting += 1,
            TokenDecision::UseCached(_) => panic!("nothing is cached"),
        }
    }
    assert_eq!(refreshes, 1);
    assert_eq!(waiting, 7);
    let shared = service.complete_refresh_at(granted("token-1", "https://eu1.example"), 501);
    assert_eq!(shared, Ok(session("token-1", "https://eu1.example", 2_301)));
    for _ in 0..8 {
        assert_eq!(
            service.get_access_token_at(502),
            TokenDecision::UseCached(session("token-1", "https://eu1.example", 2_301))
        );
    }
}

#[test]
fn first_caller_of_several_is_the_one_that_refreshes() {
    let mut service = client();
    assert!(matches!(
        service.get_access_token_at(0),
        TokenDecision::Refresh(_)
    ));
    assert_eq!(service.get_access_token_at(0), TokenDecision::AwaitRefresh);
    assert_eq!(service.get_objects_at("SELECT Id FROM Account", 0), Dispatch::AwaitRefresh);
}

#[test]
fn expired_session_is_refreshed_once_and_never_reused() {
    let mut service = authorized_client(1_000);
    assert_eq!(
        service.get_access_token_at(2_799),
        TokenDecision::UseCached(session("token-1", "https://eu1.example", 2_800))
    );
    assert_eq!(
        service.get_access_token_at(2_800),
        TokenDecision::Refresh(exchange())
    );
    assert_eq!(service.get_access_token_at(2_800), TokenDecision::AwaitRefresh);
    assert_eq!(service.get_access_token_at(9_999), TokenDecision::AwaitRefresh);
    assert_eq!(
        service.complete_refresh_at(granted("token-2", "https://eu2.example"), 2_805),
        Ok(session("token-2", "https://eu2.example", 4_605))
    );
    assert_eq!(
        service.get_access_token_at(2_806),
        TokenDecision::UseCached(session("token-2", "https://eu2.example", 4_605))
    );
}

#[test]
fn valid_session_is_used_while_a_refresh_is_in_flight() {
    let mut service = authorized_client(1_000);
    assert!(matches!(
        service.get_access_token_at(3_000),
        TokenDecision::Refresh(_)
    ));
    assert!(service.refresh_in_flight());
    assert_eq!(
        service.get_access_token_at(1_500),
        TokenDecision::UseCached(session("token-1", "https://eu1.example", 2_800))
    );
}

#[test]
fn answer_without_access_token_leaves_the_state_unchanged() {
    let mut service = client();
    assert!(matches!(
        service.get_access_token_at(10),
        TokenDecision::Refresh(_)
    ));
    let malformed = AuthorizationOutcome::Responded(AccessTokenResponse {
        access_token: None,
        instance_url: Some("https://eu1.example".to_string()),
    });
    let result = service.complete_refresh_at(malformed, 11);
    assert_eq!(result, Err(ServiceError::AccessTokenNotFound));
    assert!(!ServiceError::AccessTokenNotFound.is_retryable());
    assert_eq!(service.token().phase_at(11), Phase::Empty);
    assert!(!service.refresh_in_flight());
    assert_eq!(
        service.get_access_token_at(12),
        TokenDecision::Refresh(exchange())
    );
}

#[test]
fn answer_without_instance_url_caches_no_partial_session() {
    let mut service = client();
    let partial = AuthorizationOutcome::Responded(AccessTokenResponse {
        access_token: Some("token-1".to_string()),
        instance_url: None,
    });
    assert_eq!(
        service.complete_refresh_at(partial, 11),
        Err(ServiceError::InstanceUrlNotFound)
    );
    assert_eq!(service.token().phase_at(11), Phase::Empty);
    assert_eq!(
        service.token().check_access_token_at(11),
        Err(ServiceError::AccessTokenNotFound)
    );
}

#[test]
fn answer_without_either_member_reports_the_token_first() {
    let mut service = client();
    let empty = AuthorizationOutcome::Responded(AccessTokenResponse {
        access_token: None,
        instance_url: None,
    });
    assert_eq!(
        service.complete_refresh_at(empty, 11),
        Err(ServiceError::AccessTokenNotFound)
    );
}

#[test]
fn undecodable_answer_is_a_configuration_error() {
    let mut service = authorized_client(1_000);
    service.get_access_token_at(5_000);
    let result = service.complete_refresh_at(
        AuthorizationOutcome::Undecodable("expected value at line 1 column 1".to_string()),
        5_001,
    );
    assert_eq!(
        result,
        Err(ServiceError::ConfigurationDeserializationFailed(
            "expected value at line 1 column 1".to_string()
        ))
    );
    assert_eq!(service.token().phase_at(5_001), Phase::Stale);
}

#[test]
fn failed_refresh_of_a_stale_session_leaves_it_stale() {
    let mut service = authorized_client(1_000);
    assert!(matches!(
        service.get_access_token_at(2_800),
        TokenDecision::Refresh(_)
    ));
    let result = service.complete_refresh_at(
        AuthorizationOutcome::TransportFailed("operation timed out".to_string()),
        2_810,
    );
    assert_eq!(
        result,
        Err(ServiceError::ClientRequestFailed(
            "operation timed out".to_string()
        ))
    );
    assert!(result.unwrap_err().is_retryable());
    assert_eq!(service.token().phase_at(2_810), Phase::Stale);
    assert_eq!(service.token().phase_at(2_799), Phase::Valid);
    assert_eq!(
        service.get_access_token_at(2_811),
        TokenDecision::Refresh(exchange())
    );
}

#[test]
fn failed_proactive_refresh_keeps_a_valid_session() {
    let mut service = authorized_client(1_000);
    let result = service.complete_refresh_at(
        AuthorizationOutcome::TransportFailed("connection refused".to_string()),
        1_200,
    );
    assert!(result.is_err());
    assert_eq!(
        service.get_access_token_at(1_201),
        TokenDecision::UseCached(session("token-1", "https://eu1.example", 2_800))
    );
}

#[test]
fn read_request_addresses_the_record() {
    let mut service = authorized_client(1_000);
    assert_eq!(
        service.get_object_by_id_at("Account", "missing-id", 1_001),
        Dispatch::Send(ObjectRequest {
            method: Method::Get,
            url: "https://eu1.example/services/data/v59.0/sobjects/Account/missing-id"
                .to_string(),
            bearer_token: "token-1".to_string(),
            body: None,
        })
    );
}

#[test]
fn query_request_carries_the_normalized_query() {
    let mut service = authorized_client(1_000);
    assert_eq!(
        service.get_objects_at("SELECT Id  FROM\n  Account", 1_001),
        Dispatch::Send(ObjectRequest {
            method: Method::Get,
            url: "https://eu1.example/services/data/v59.0/query/?q=SELECT+Id+FROM+Account"
                .to_string(),
            bearer_token: "token-1".to_string(),
            body: None,
        })
    );
}

#[test]
fn query_url_encodes_only_spaces() {
    let cached = session("t", "https://x.example", 10);
    assert_eq!(
        SalesforceService::query_url(&cached, "SELECT Id FROM Account WHERE Name = 'A&B'"),
        "https://x.example/services/data/v59.0/query/?q=SELECT+Id+FROM+Account+WHERE+Name+=+'A&B'"
    );
    assert_eq!(
        SalesforceService::query_url(&cached, ""),
        "https://x.example/services/data/v59.0/query/?q="
    );
}

#[test]
fn urls_of_records_and_collections() {
    let cached = session("t", "https://x.example", 10);
    assert_eq!(
        SalesforceService::object_url(&cached, "Contact", "003"),
        "https://x.example/services/data/v59.0/sobjects/Contact/003"
    );
    assert_eq!(
        SalesforceService::collection_url(&cached, "Contact"),
        "https://x.example/services/data/v59.0/sobjects/Contact"
    );
}

#[test]
fn create_request_posts_the_fields() {
    let mut service = authorized_client(1_000);
    let fields: Value = serde_json::from_str(r#"{"Name":"Acme"}"#).unwrap();
    let request = CreateObjectRecordRequest {
        object_type: "Account".to_string(),
        id: None,
        fields: Some(fields.clone()),
    };
    assert_eq!(
        service.create_object_at(&request, 1_001),
        Ok(Dispatch::Send(ObjectRequest {
            method: Method::Post,
            url: "https://eu1.example/services/data/v59.0/sobjects/Account".to_string(),
            bearer_token: "token-1".to_string(),
            body: Some(fields),
        }))
    );
}

#[test]
fn update_request_patches_the_record() {
    let mut service = authorized_client(1_000);
    let fields: Value = serde_json::from_str(r#"{"Name":"Acme"}"#).unwrap();
    let request = CreateObjectRecordRequest {
        object_type: "Account".to_string(),
        id: Some("001".to_string()),
        fields: Some(fields.clone()),
    };
    assert_eq!(
        service.update_object_at(&request, 1_001),
        Ok(Dispatch::Send(ObjectRequest {
            method: Method::Patch,
            url: "https://eu1.example/services/data/v59.0/sobjects/Account/001".to_string(),
            bearer_token: "token-1".to_string(),
            body: Some(fields.clone()),
        }))
    );
    let unnamed = CreateObjectRecordRequest {
        object_type: "Account".to_string(),
        id: None,
        fields: Some(fields.clone()),
    };
    assert_eq!(
        service.update_object_at(&unnamed, 1_001),
        Ok(Dispatch::Send(ObjectRequest {
            method: Method::Patch,
            url: "https://eu1.example/services/data/v59.0/sobjects/Account".to_string(),
            bearer_token: "token-1".to_string(),
            body: Some(fields),
        }))
    );
}

#[test]
fn invalid_payload_is_rejected_before_any_authorization() {
    let mut service = client();
    let invalid = CreateObjectRecordRequest {
        object_type: "Account".to_string(),
        id: None,
        fields: None,
    };
    assert_eq!(
        service.create_object_at(&invalid, 1_000),
        Err(ServiceError::RequestInvalid("fields: required".to_string()))
    );
    assert_eq!(
        service.update_object_at(&invalid, 1_000),
        Err(ServiceError::RequestInvalid("fields: required".to_string()))
    );
    assert_eq!(
        service.create_object(&invalid),
        Err(ServiceError::RequestInvalid("fields: required".to_string()))
    );
    assert_eq!(
        service.update_object(&invalid),
        Err(ServiceError::RequestInvalid("fields: required".to_string()))
    );
    assert!(!service.refresh_in_flight());
    let valid = CreateObjectRecordRequest {
        object_type: "Account".to_string(),
        id: None,
        fields: Some(Value::Null),
    };
    assert_eq!(
        service.create_object_at(&valid, 1_000),
        Ok(Dispatch::Authorize(exchange()))
    );
    assert_eq!(
        service.update_object_at(&valid, 1_000),
        Ok(Dispatch::AwaitRefresh)
    );
}

#[test]
fn missing_record_is_object_not_found() {
    let missing = ServiceError::ObjectNotFound {
        object_type: "Account".to_string(),
        id: "missing-id".to_string(),
    };
    assert_eq!(
        SalesforceService::object_from_response(
            "Account",
            "missing-id",
            404,
            br#"[{"errorCode":"NOT_FOUND","message":"The requested resource does not exist"}]"#
        ),
        Err(missing.clone())
    );
    assert_eq!(
        SalesforceService::object_from_response("Account", "missing-id", 404, b"not json"),
        Err(missing.clone())
    );
    assert_eq!(
        SalesforceService::object_from_parsed(
            "Account",
            "missing-id",
            404,
            b"true",
            Some(Value::Bool(true))
        ),
        Err(missing)
    );
}

#[test]
fn other_failures_of_a_read_name_record_status_and_body() {
    assert_eq!(
        SalesforceService::object_from_response("Account", "001", 500, b"boom"),
        Err(ServiceError::ObjectRetrievalFailed(
            "Salesforce answered with status 500 for Account/001: boom".to_string()
        ))
    );
    assert_eq!(
        SalesforceService::object_from_response("Contact", "003", 401, br#"{"error":"expired"}"#),
        Err(ServiceError::ObjectRetrievalFailed(
            "Salesforce answered with status 401 for Contact/003: {\"error\":\"expired\"}"
                .to_string()
        ))
    );
    assert_eq!(
        SalesforceService::object_from_response("Account", "001", 199, b"{}"),
        Err(ServiceError::ObjectRetrievalFailed(
            "Salesforce answered with status 199 for Account/001: {}".to_string()
        ))
    );
    assert_eq!(
        SalesforceService::object_from_response("Account", "001", 300, b"{}"),
        Err(ServiceError::ObjectRetrievalFailed(
            "Salesforce answered with status 300 for Account/001: {}".to_string()
        ))
    );
}

#[test]
fn record_is_returned_as_it_was_decoded() {
    let body = r#"{"Id":"001","Name":"Acme","Employees":12,"Tags":["a","b"],"Parent":null}"#;
    let expected: Value = serde_json::from_str(body).unwrap();
    assert_eq!(
        SalesforceService::object_from_response("Account", "001", 200, body.as_bytes()),
        Ok(expected.clone())
    );
    assert_eq!(
        SalesforceService::object_from_response("Account", "001", 299, body.as_bytes()),
        Ok(expected.clone())
    );
    assert_ne!(expected, Value::String(body.to_string()));
    assert_eq!(expected.get("Name").and_then(Value::as_str), Some("Acme"));
}

#[test]
fn successful_read_without_a_document_is_a_failed_retrieval() {
    assert_eq!(
        SalesforceService::object_from_response("Account", "001", 200, b"<html>"),
        Err(ServiceError::ObjectRetrievalFailed(
            "Salesforce answered with status 200 for Account/001: <html>".to_string()
        ))
    );
    assert_eq!(
        SalesforceService::object_from_response("Account", "001", 200, b""),
        Err(ServiceError::ObjectRetrievalFailed(
            "Salesforce answered with status 200 for Account/001: ".to_string()
        ))
    );
    let failure = SalesforceService::object_from_response("Account", "001", 200, b"{} {}")
        .unwrap_err();
    assert!(!failure.is_retryable());
}

#[test]
fn body_that_is_not_utf8_is_never_a_document() {
    let body = [b'"', 0xff, b'"'];
    assert!(serde_json::from_slice::<Value>(&body).is_err());
    assert_eq!(
        SalesforceService::object_from_response("Account", "001", 200, &body),
        Err(ServiceError::ObjectRetrievalFailed(
            "Salesforce answered with status 200 for Account/001: \"\u{fffd}\"".to_string()
        ))
    );
    assert!(SalesforceService::objects_from_response(200, &body).is_err());
}

#[test]
fn decoded_result_decides_what_a_read_yields() {
    assert_eq!(
        SalesforceService::object_from_parsed("A", "1", 200, b"ignored", Some(Value::Bool(true))),
        Ok(Value::Bool(true))
    );
    assert_eq!(
        SalesforceService::object_from_parsed("A", "1", 200, b"bad", None),
        Err(ServiceError::ObjectRetrievalFailed(
            "Salesforce answered with status 200 for A/1: bad".to_string()
        ))
    );
    assert_eq!(
        SalesforceService::object_from_parsed("A", "1", 503, b"busy", Some(Value::Bool(true))),
        Err(ServiceError::ObjectRetrievalFailed(
            "Salesforce answered with status 503 for A/1: busy".to_string()
        ))
    );
}

#[test]
fn query_answer_is_returned_as_it_was_decoded() {
    let body = r#"{"totalSize":1,"done":true,"records":[{"Id":"001"}]}"#;
    let expected: Value = serde_json::from_str(body).unwrap();
    assert_eq!(
        SalesforceService::objects_from_response(200, body.as_bytes()),
        Ok(expected.clone())
    );
    assert_eq!(
        SalesforceService::objects_from_parsed(200, body.as_bytes(), Some(expected.clone())),
        Ok(expected)
    );
}

#[test]
fn query_answer_is_returned_whatever_the_status() {
    let body = r#"[{"message":"unexpected token","errorCode":"MALFORMED_QUERY"}]"#;
    let expected: Value = serde_json::from_str(body).unwrap();
    for status in [400, 404, 500, 199, 300] {
        assert_eq!(
            SalesforceService::objects_from_response(status, body.as_bytes()),
            Ok(expected.clone())
        );
        assert_eq!(
            SalesforceService::objects_from_parsed(status, b"x", Some(Value::Null)),
            Ok(Value::Null)
        );
    }
}

#[test]
fn query_answer_without_a_document_is_a_failed_retrieval() {
    assert_eq!(
        SalesforceService::objects_from_response(400, b"MALFORMED_QUERY"),
        Err(ServiceError::ObjectRetrievalFailed(
            "Salesforce answered with status 400: MALFORMED_QUERY".to_string()
        ))
    );
    assert_eq!(
        SalesforceService::objects_from_response(200, b""),
        Err(ServiceError::ObjectRetrievalFailed(
            "Salesforce answered with status 200: ".to_string()
        ))
    );
    assert_eq!(
        SalesforceService::objects_from_response(200, b"{} {}"),
        Err(ServiceError::ObjectRetrievalFailed(
            "Salesforce answered with status 200: {} {}".to_string()
        ))
    );
    assert_eq!(
        SalesforceService::objects_from_parsed(502, "caf\u{e9}".as_bytes(), None),
        Err(ServiceError::ObjectRetrievalFailed(
            "Salesforce answered with status 502: caf\u{e9}".to_string()
        ))
    );
}

#[test]
fn accepted_write_carries_the_upstream_status() {
    let created = SalesforceService::transaction_from_response(201, br#"{"id":"001"}"#).unwrap();
    assert_eq!(created.status(), 201);
    assert_eq!(created.message(), "Record successfully created.");
    let updated = SalesforceService::transaction_from_response(204, b"").unwrap();
    assert_eq!(updated.status(), 204);
    assert_eq!(
        SalesforceService::transaction_from_response(200, b"not json")
            .unwrap()
            .status(),
        200
    );
}

#[test]
fn rejected_write_hands_on_the_upstream_body() {
    let body = br#"[{"message":"Required fields are missing: [Name]","errorCode":"REQUIRED_FIELD_MISSING","fields":["Name"]}]"#;
    assert_eq!(
        SalesforceService::transaction_from_response(400, body),
        Err(ServiceError::ObjectUpdateFailed(body.to_vec()))
    );
    assert_eq!(
        SalesforceService::transaction_from_response(502, b"Bad Gateway"),
        Err(ServiceError::ObjectUpdateFailed(b"Bad Gateway".to_vec()))
    );
    assert_eq!(
        SalesforceService::transaction_from_response(500, &[0xff, 0xfe]),
        Err(ServiceError::ObjectUpdateFailed(vec![0xff, 0xfe]))
    );
    assert_eq!(
        SalesforceService::transaction_from_response(199, b""),
        Err(ServiceError::ObjectUpdateFailed(Vec::new()))
    );
    assert_eq!(
        SalesforceService::transaction_from_response(300, b"{}"),
        Err(ServiceError::ObjectUpdateFailed(b"{}".to_vec()))
    );
}

#[test]
fn request_without_an_answer_is_a_failed_retrieval() {
    let error = SalesforceService::unanswered("operation timed out");
    assert_eq!(
        error,
        ServiceError::ObjectRetrievalFailed(
            "Salesforce did not answer: operation timed out".to_string()
        )
    );
    assert!(!error.is_retryable());
}

#[test]
fn operations_by_the_clock_follow_the_same_decisions() {
    let mut service = client();
    assert_eq!(
        service.get_object_by_id("Account".to_string(), "001".to_string()),
        Dispatch::Authorize(exchange())
    );
    assert_eq!(
        service.get_objects("SELECT Id FROM Account".to_string()),
        Dispatch::AwaitRefresh
    );
    assert_eq!(service.get_access_token(), TokenDecision::AwaitRefresh);
    let before = time::OffsetDateTime::now_utc().unix_timestamp();
    let granted_session = service
        .complete_refresh(granted("token-1", "https://eu1.example"))
        .unwrap();
    let after = time::OffsetDateTime::now_utc().unix_timestamp();
    assert!(before + 1_800 <= granted_session.expires_at);
    assert!(granted_session.expires_at <= after + 1_800);
    assert_eq!(
        service.get_access_token(),
        TokenDecision::UseCached(granted_session)
    );
    assert_eq!(
        service.get_object_by_id("Account".to_string(), "001".to_string()),
        Dispatch::Send(ObjectRequest {
            method: Method::Get,
            url: "https://eu1.example/services/data/v59.0/sobjects/Account/001".to_string(),
            bearer_token: "token-1".to_string(),
            body: None,
        })
    );
    let valid = CreateObjectRecordRequest {
        object_type: "Account".to_string(),
        id: Some("001".to_string()),
        fields: Some(Value::Null),
    };
    assert!(matches!(
        service.create_object(&valid),
        Ok(Dispatch::Send(_))
    ));
    assert!(matches!(
        service.update_object(&valid),
        Ok(Dispatch::Send(_))
    ));
}

#[test]
fn clone_is_a_copy_of_the_client() {
    let service = authorized_client(1_000);
    let mut copy = service.clone();
    assert_eq!(copy.organization(), service.organization());
    assert_eq!(copy.config(), service.config());
    assert_eq!(
        copy.get_access_token_at(1_001),
        TokenDecision::UseCached(session("token-1", "https://eu1.example", 2_800))
    );
}
