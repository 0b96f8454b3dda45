//! The client of one organization. It owns the organization's credentials
//! and cached session, decides when a new session must be acquired, and
//! shapes every request to Salesforce and the reading of every answer.
//! Sending is left to the caller: each operation returns what to send next.

use crate::clock::{now_utc, CLOCK_LIMIT};
use crate::config::{CredentialsView, SalesforceConfiguration, ServiceConfiguration};
use crate::errors::ServiceError;
use crate::json::{decoded_json, is_json_text, parse_value};
use crate::organization::SalesforceOrganization;
use crate::requests::{violation_text, CreateObjectRecordRequest, Violation};
use crate::responses::TransactionSuccessfulResponse;
use crate::salesforce::lifecycle::{
    spec_after_refresh, spec_after_step, spec_grant, spec_step, OutcomeView, ServiceView, Step,
};
use crate::text::{
    collapse_whitespace, decimal, lossy_text, normalize_soql, read_lossy, spaces_to_plus,
    spec_decimal, spec_spaces_to_plus,
};
use crate::token::{spec_granted, Session, SessionView, TokenState, SESSION_LIFETIME_SECONDS};
use serde_json::Value;
use vstd::prelude::*;
use vstd::slice::slice_to_vec;
use vstd::string::StringExecFns;

verus! {

/// The members of an authorization answer that the gateway reads. Either may
/// be missing from the answer.
#[derive(Debug, Clone, PartialEq, Eq)]
pub struct AccessTokenResponse {
    pub access_token: Option<String>,
    pub instance_url: Option<String>,
}

/// How an exchange with the authorization endpoint ended.
#[derive(Debug, Clone, PartialEq, Eq)]
pub enum AuthorizationOutcome {
    /// The endpoint answered with a JSON object.
    Responded(AccessTokenResponse),
    /// The endpoint answered with something that is not a JSON object; the
    /// text says what was wrong with it.
    Undecodable(String),
    /// The exchange failed in transport or timed out; the text says how.
    TransportFailed(String),
}

impl View for AuthorizationOutcome {
    type V = OutcomeView;

    open spec fn view(&self) -> OutcomeView {
        match self {
            AuthorizationOutcome::Responded(answer) => OutcomeView::Responded {
                access_token: match answer.access_token {
                    Some(token) => Some(token@),
                    None => None,
                },
                instance_url: match answer.instance_url {
                    Some(url) => Some(url@),
                    None => None,
                },
            },
            AuthorizationOutcome::Undecodable(text) => OutcomeView::Undecodable(text@),
            AuthorizationOutcome::TransportFailed(text) => OutcomeView::TransportFailed(text@),
        }
    }
}

/// The password-grant exchange to make with the authorization endpoint: a
/// POST to `url` of a multipart form whose fields are named as the fields
/// of this struct are.
#[derive(Debug, Clone, PartialEq, Eq)]
pub struct AuthorizationRequest {
    pub url: String,
    pub grant_type: String,
    pub client_id: String,
    pub client_secret: String,
    pub username: String,
    pub password: String,
}

/// Mathematical value of an `AuthorizationRequest`.
pub struct AuthorizationRequestView {
    pub url: Seq<char>,
    pub grant_type: Seq<char>,
    pub client_id: Seq<char>,
    pub client_secret: Seq<char>,
    pub username: Seq<char>,
    pub password: Seq<char>,
}

impl View for AuthorizationRequest {
    type V = AuthorizationRequestView;

    open spec fn view(&self) -> AuthorizationRequestView {
        AuthorizationRequestView {
            url: self.url@,
            grant_type: self.grant_type@,
            client_id: self.client_id@,
            client_secret: self.client_secret@,
            username: self.username@,
            password: self.password@,
        }
    }
}

/// HTTP method of a request to Salesforce.
#[derive(Debug, Clone, Copy, PartialEq, Eq, Structural)]
pub enum Method {
    Get,
    Post,
    Patch,
}

/// A request to send to Salesforce with bearer authentication. The body, if
/// there is one, is sent as JSON.
#[derive(Debug, Clone, PartialEq)]
pub struct ObjectRequest {
    pub method: Method,
    pub url: String,
    pub bearer_token: String,
    pub body: Option<Value>,
}

/// Mathematical value of an `ObjectRequest`.
pub struct ObjectRequestView {
    pub method: Method,
    pub url: Seq<char>,
    pub bearer_token: Seq<char>,
    pub body: Option<Value>,
}

impl View for ObjectRequest {
    type V = ObjectRequestView;

    open spec fn view(&self) -> ObjectRequestView {
        ObjectRequestView {
            method: self.method,
            url: self.url@,
            bearer_token: self.bearer_token@,
            body: self.body,
        }
    }
}

/// What a caller that needs a token does next.
#[derive(Debug, Clone, PartialEq, Eq)]
pub enum TokenDecision {
    /// Use this session: it is valid.
    UseCached(Session),
    /// Make this exchange, report how it ended, and hand the result to
    /// every caller that waits for it.
    Refresh(AuthorizationRequest),
    /// Wait for the refresh in flight and take what it hands out.
    AwaitRefresh,
}

/// What a caller that wants an operation performed does next.
#[derive(Debug, Clone, PartialEq)]
pub enum Dispatch {
    /// Send this request: it carries a valid token.
    Send(ObjectRequest),
    /// Make this exchange, report how it ended, and ask again.
    Authorize(AuthorizationRequest),
    /// Wait for the refresh in flight, then ask again.
    AwaitRefresh,
}

/// Path under the instance URL of the REST API version the gateway speaks.
pub open spec fn spec_api_root() -> Seq<char> {
    "/services/data/v59.0"@
}

/// The exchange that acquires a session with `credentials`.
pub open spec fn spec_authorization_request(
    credentials: CredentialsView,
) -> AuthorizationRequestView {
    AuthorizationRequestView {
        url: credentials.salesforce_url,
        grant_type: "password"@,
        client_id: credentials.consumer_key,
        client_secret: credentials.consumer_secret,
        username: credentials.user_name,
        password: credentials.password,
    }
}

/// Address of the record `id` of type `object`.
pub open spec fn spec_object_url(
    instance_url: Seq<char>,
    object: Seq<char>,
    id: Seq<char>,
) -> Seq<char> {
    instance_url + spec_api_root() + "/sobjects/"@ + object + "/"@ + id
}

/// Address of the records of type `object`.
pub open spec fn spec_collection_url(instance_url: Seq<char>, object: Seq<char>) -> Seq<char> {
    instance_url + spec_api_root() + "/sobjects/"@ + object
}

/// Text of `soql` as it stands in an address: runs of whitespace collapsed,
/// then every space written as a plus sign.
pub open spec fn spec_encoded_query(soql: Seq<char>) -> Seq<char> {
    spec_spaces_to_plus(collapse_whitespace(soql))
}

/// Address that runs the query `soql`.
pub open spec fn spec_query_url(instance_url: Seq<char>, soql: Seq<char>) -> Seq<char> {
    instance_url + spec_api_root() + "/query/?q="@ + spec_encoded_query(soql)
}

/// The request that reads the record `id` of type `object`.
pub open spec fn spec_read_request(
    session: SessionView,
    object: Seq<char>,
    id: Seq<char>,
) -> ObjectRequestView {
    ObjectRequestView {
        method: Method::Get,
        url: spec_object_url(session.instance_url, object, id),
        bearer_token: session.access_token,
        body: None,
    }
}

/// The request that runs the query `soql`.
pub open spec fn spec_query_request(session: SessionView, soql: Seq<char>) -> ObjectRequestView {
    ObjectRequestView {
        method: Method::Get,
        url: spec_query_url(session.instance_url, soql),
        bearer_token: session.access_token,
        body: None,
    }
}

/// The request that creates the record that `request` describes.
pub open spec fn spec_create_request(
    session: SessionView,
    request: CreateObjectRecordRequest,
) -> ObjectRequestView {
    ObjectRequestView {
        method: Method::Post,
        url: spec_collection_url(session.instance_url, request.object_type@),
        bearer_token: session.access_token,
        body: request.fields,
    }
}

/// The request that updates the record that `request` describes. The
/// address names the record where the request does.
pub open spec fn spec_update_request(
    session: SessionView,
    request: CreateObjectRecordRequest,
) -> ObjectRequestView {
    ObjectRequestView {
        method: Method::Patch,
        url: match request.id {
            Some(id) => spec_object_url(session.instance_url, request.object_type@, id@),
            None => spec_collection_url(session.instance_url, request.object_type@),
        },
        bearer_token: session.access_token,
        body: request.fields,
    }
}

/// `decision` is what the model tells a caller of `client` at second `now`.
pub open spec fn decision_follows(decision: TokenDecision, client: ServiceView, now: int) -> bool {
    match spec_step(client, now) {
        Step::UseCached => decision matches TokenDecision::UseCached(session) && Some(session@)
            == client.session,
        Step::StartRefresh => decision matches TokenDecision::Refresh(exchange) && exchange@
            == spec_authorization_request(client.credentials),
        Step::AwaitRefresh => decision is AwaitRefresh,
    }
}

/// `dispatch` is what the model tells a caller of `client` at second `now`,
/// where `request` is what to send with a valid session.
pub open spec fn dispatch_follows(
    dispatch: Dispatch,
    client: ServiceView,
    now: int,
    request: ObjectRequestView,
) -> bool {
    match spec_step(client, now) {
        Step::UseCached => dispatch matches Dispatch::Send(sent) && sent@ == request,
        Step::StartRefresh => dispatch matches Dispatch::Authorize(exchange) && exchange@
            == spec_authorization_request(client.credentials),
        Step::AwaitRefresh => dispatch is AwaitRefresh,
    }
}

/// `dispatch` rejects a request for breaking the rule `violation`.
pub open spec fn is_rejection(
    dispatch: Result<Dispatch, ServiceError>,
    violation: Violation,
) -> bool {
    dispatch matches Err(ServiceError::RequestInvalid(message)) && message@ == violation_text(
        violation,
    )
}

/// `dispatch` accepts a request and tells the caller of `client` at second
/// `now` what to do, where `request` is what to send with a valid session.
pub open spec fn accepted_dispatch_follows(
    dispatch: Result<Dispatch, ServiceError>,
    client: ServiceView,
    now: int,
    request: ObjectRequestView,
) -> bool {
    dispatch matches Ok(next) && dispatch_follows(next, client, now, request)
}

/// `result` is what every caller is handed when a refresh ended with
/// `outcome` at second `now`: the new session, or the error that names what
/// went wrong. A missing access token is reported before a missing instance
/// URL.
pub open spec fn refresh_yields(
    result: Result<Session, ServiceError>,
    outcome: OutcomeView,
    now: int,
) -> bool {
    match outcome {
        OutcomeView::Responded { access_token: Some(token), instance_url: Some(url) } => {
            result matches Ok(session) && session@ == spec_granted(token, url, now)
        },
        OutcomeView::Responded { access_token: None, .. } => result == Err::<
            Session,
            ServiceError,
        >(ServiceError::AccessTokenNotFound),
        OutcomeView::Responded { instance_url: None, .. } => result == Err::<
            Session,
            ServiceError,
        >(ServiceError::InstanceUrlNotFound),
        OutcomeView::Undecodable(text) => result matches Err(
            ServiceError::ConfigurationDeserializationFailed(message),
        ) && message@ == text,
        OutcomeView::TransportFailed(text) => result matches Err(
            ServiceError::ClientRequestFailed(message),
        ) && message@ == text,
    }
}

/// Whether `status` reports success.
pub open spec fn is_success(status: u16) -> bool {
    200 <= status < 300
}

/// Text of the error for a read without a usable answer: the status, the
/// record that was asked for, and the body as text.
pub open spec fn spec_read_failure_text(
    object: Seq<char>,
    id: Seq<char>,
    status: u16,
    body: Seq<u8>,
) -> Seq<char> {
    "Salesforce answered with status "@ + spec_decimal(status as nat) + " for "@ + object + "/"@
        + id + ": "@ + lossy_text(body)
}

/// Text of the error for a query without a usable answer: the status and the
/// body as text.
pub open spec fn spec_query_failure_text(status: u16, body: Seq<u8>) -> Seq<char> {
    "Salesforce answered with status "@ + spec_decimal(status as nat) + ": "@ + lossy_text(body)
}

/// Text of the error for a request that got no answer at all.
pub open spec fn spec_unanswered_text(diagnostic: Seq<char>) -> Seq<char> {
    "Salesforce did not answer: "@ + diagnostic
}

/// Text of the answer the gateway gives when a create or update was accepted.
pub open spec fn spec_accepted_text() -> Seq<char> {
    "Record successfully created."@
}

/// `result` is the error that carries `text` as a failed retrieval.
pub open spec fn is_retrieval_failure<T>(result: Result<T, ServiceError>, text: Seq<char>) -> bool {
    result matches Err(ServiceError::ObjectRetrievalFailed(message)) && message@ == text
}

/// `result` is the error for the record `id` of type `object` not existing.
pub open spec fn is_not_found<T>(
    result: Result<T, ServiceError>,
    object: Seq<char>,
    id: Seq<char>,
) -> bool {
    result matches Err(ServiceError::ObjectNotFound { object_type, id: missing }) && object_type@
        == object && missing@ == id
}

/// `result` is what reading the record `id` of type `object` yields for an
/// answer with `status` and `body`, where `decoded` is the document that the
/// body holds, if it holds one. Status 404 is looked at first; then the
/// document is returned if the status reports success and there is one; any
/// other answer is a failed retrieval.
pub open spec fn read_yields(
    result: Result<Value, ServiceError>,
    object: Seq<char>,
    id: Seq<char>,
    status: u16,
    body: Seq<u8>,
    decoded: Option<Value>,
) -> bool {
    if status == 404 {
        is_not_found(result, object, id)
    } else if is_success(status) && decoded is Some {
        result == Ok::<Value, ServiceError>(decoded->0)
    } else {
        is_retrieval_failure(result, spec_read_failure_text(object, id, status, body))
    }
}

/// `result` is what running a query yields for an answer with `status` and
/// `body`, where `decoded` is the document that the body holds, if it holds
/// one. The document is returned whatever the status is; a body that holds
/// none is a failed retrieval.
pub open spec fn query_yields(
    result: Result<Value, ServiceError>,
    status: u16,
    body: Seq<u8>,
    decoded: Option<Value>,
) -> bool {
    match decoded {
        Some(document) => result == Ok::<Value, ServiceError>(document),
        None => is_retrieval_failure(result, spec_query_failure_text(status, body)),
    }
}

/// `result` is what a create or update yields for an answer with `status`
/// and `body`: the record was accepted if the status reports success, and
/// was rejected with the body of the answer otherwise.
pub open spec fn write_yields(
    result: Result<TransactionSuccessfulResponse, ServiceError>,
    status: u16,
    body: Seq<u8>,
) -> bool {
    if is_success(status) {
        result matches Ok(accepted) && accepted.spec_status() == status
            && accepted.spec_message() == spec_accepted_text()
    } else {
        result matches Err(ServiceError::ObjectUpdateFailed(payload)) && payload@ == body
    }
}

/// The document that `body` holds, if it holds one.
fn decode(body: &[u8]) -> (decoded: Option<Value>)
    ensures
        decoded == decoded_json(body@),
{
    match parse_value(body) {
        Ok(document) => Some(document),
        Err(_) => None,
    }
}

fn status_text(status: u16) -> (text: String)
    ensures
        text@ == "Salesforce answered with status "@ + spec_decimal(status as nat),
{
    let text = "Salesforce answered with status ".to_owned();
    text.concat(decimal(status).as_str())
}

fn api_url(instance_url: &str, path: &str) -> (url: String)
    ensures
        url@ == instance_url@ + spec_api_root() + path@,
{
    let url = instance_url.to_owned();
    let url = url.concat("/services/data/v59.0");
    url.concat(path)
}

/// The client of one organization.
#[derive(Debug)]
pub struct SalesforceService {
    organization: SalesforceOrganization,
    config: SalesforceConfiguration,
    timeout_seconds: u64,
    token: TokenState,
    refresh_in_flight: bool,
}

impl View for SalesforceService {
    type V = ServiceView;

    closed spec fn view(&self) -> ServiceView {
        ServiceView {
            organization: self.organization,
            credentials: self.config@,
            timeout_seconds: self.timeout_seconds,
            session: self.token@,
            refresh_in_flight: self.refresh_in_flight,
        }
    }
}

impl Clone for SalesforceService {
    fn clone(&self) -> (copy: Self)
        ensures
            copy@ == self@,
    {
        SalesforceService {
            organization: self.organization,
            config: self.config.duplicate(),
            timeout_seconds: self.timeout_seconds,
            token: self.token.clone(),
            refresh_in_flight: self.refresh_in_flight,
        }
    }
}

impl SalesforceService {
    /// The client of `organization`, with nothing cached and no refresh in
    /// flight. Outbound calls are limited to the configured timeout, or to
    /// five seconds where none is configured.
    pub fn new(
        organization: SalesforceOrganization,
        salesforce_configuration: SalesforceConfiguration,
        service_configuration: &ServiceConfiguration,
    ) -> (service: Self)
        ensures
            service@ == (ServiceView {
                organization,
                credentials: salesforce_configuration@,
                timeout_seconds: service_configuration.spec_timeout(),
                session: None,
                refresh_in_flight: false,
            }),
    {
        SalesforceService {
            organization,
            config: salesforce_configuration,
            timeout_seconds: service_configuration.timeout(),
            token: TokenState::new(),
            refresh_in_flight: false,
        }
    }

    /// The organization this client acts for.
    pub fn organization(&self) -> (organization: SalesforceOrganization)
        ensures
            organization == self@.organization,
    {
        self.organization
    }

    /// The credentials this client was made with.
    pub fn config(&self) -> (config: &SalesforceConfiguration)
        ensures
            config@ == self@.credentials,
    {
        &self.config
    }

    /// Seconds an outbound call of this client may take.
    pub fn timeout_seconds(&self) -> (seconds: u64)
        ensures
            seconds == self@.timeout_seconds,
    {
        self.timeout_seconds
    }

    /// The cached session of this client.
    pub fn token(&self) -> (token: &TokenState)
        ensures
            token@ == self@.session,
    {
        &self.token
    }

    /// Whether some caller is exchanging the credentials for a new session.
    pub fn refresh_in_flight(&self) -> (in_flight: bool)
        ensures
            in_flight == self@.refresh_in_flight,
    {
        self.refresh_in_flight
    }

    /// The exchange that acquires a session for this client.
    pub fn authorization_request(&self) -> (exchange: AuthorizationRequest)
        ensures
            exchange@ == spec_authorization_request(self@.credentials),
    {
        AuthorizationRequest {
            url: self.config.salesforce_url.clone(),
            grant_type: "password".to_owned(),
            client_id: self.config.consumer_key.clone(),
            client_secret: self.config.consumer_secret.clone(),
            username: self.config.user_name.clone(),
            password: self.config.password.clone(),
        }
    }

    /// Tells a caller that needs a token at second `now` what to do. A valid
    /// session is handed out at once. Otherwise the first caller is told to
    /// refresh, and the client remembers that a refresh is in flight; every
    /// caller after it is told to wait until that refresh has ended.
    pub fn get_access_token_at(&mut self, now: i64) -> (decision: TokenDecision)
        ensures
            decision_follows(decision, old(self)@, now as int),
            final(self)@ == spec_after_step(old(self)@, now as int),
    {
        match self.token.valid_session_at(now) {
            Some(session) => TokenDecision::UseCached(session),
            None => {
                if self.refresh_in_flight {
                    TokenDecision::AwaitRefresh
                } else {
                    let exchange = self.authorization_request();
                    self.refresh_in_flight = true;
                    TokenDecision::Refresh(exchange)
                }
            },
        }
    }

    /// `get_access_token_at` for the present second.
    pub fn get_access_token(&mut self) -> (decision: TokenDecision)
        ensures
            exists|now: int|
                -CLOCK_LIMIT < now < CLOCK_LIMIT && #[trigger] decision_follows(
                    decision,
                    old(self)@,
                    now,
                ) && final(self)@ == spec_after_step(old(self)@, now),
    {
        let now = now_utc();
        let decision = self.get_access_token_at(now);
        assert(decision_follows(decision, old(self)@, now as int));
        decision
    }

    /// Ends the refresh in flight with `outcome`, received at second `now`.
    /// A grant replaces the cached session by one that expires
    /// `SESSION_LIFETIME_SECONDS` after `now`. Any other outcome leaves the
    /// cached session untouched and is reported as an error: a failure of
    /// transport as one that may be retried, an answer that lacks a member
    /// or is not a JSON object as a configuration error. What is returned
    /// is what every waiting caller is handed.
    pub fn complete_refresh_at(&mut self, outcome: AuthorizationOutcome, now: i64) -> (result:
        Result<Session, ServiceError>)
        requires
            now + SESSION_LIFETIME_SECONDS <= i64::MAX,
        ensures
            final(self)@ == spec_after_refresh(old(self)@, outcome@, now as int),
            refresh_yields(result, outcome@, now as int),
            result is Ok <==> spec_grant(outcome@) is Some,
    {
        self.refresh_in_flight = false;
        match outcome {
            AuthorizationOutcome::Responded(answer) => match answer.access_token {
                None => Err(ServiceError::AccessTokenNotFound),
                Some(access_token) => match answer.instance_url {
                    None => Err(ServiceError::InstanceUrlNotFound),
                    Some(instance_url) => Ok(self.token.store(access_token, instance_url, now)),
                },
            },
            AuthorizationOutcome::Undecodable(text) => Err(
                ServiceError::ConfigurationDeserializationFailed(text),
            ),
            AuthorizationOutcome::TransportFailed(text) => Err(
                ServiceError::ClientRequestFailed(text),
            ),
        }
    }

    /// `complete_refresh_at` for the present second.
    pub fn complete_refresh(&mut self, outcome: AuthorizationOutcome) -> (result: Result<
        Session,
        ServiceError,
    >)
        ensures
            result is Ok <==> spec_grant(outcome@) is Some,
            exists|now: int|
                -CLOCK_LIMIT < now < CLOCK_LIMIT && #[trigger] refresh_yields(result, outcome@, now)
                    && final(self)@ == spec_after_refresh(old(self)@, outcome@, now),
    {
        let now = now_utc();
        let ghost seen = outcome@;
        let result = self.complete_refresh_at(outcome, now);
        assert(refresh_yields(result, seen, now as int));
        result
    }

    /// Address of the record `id` of type `object` on the instance of
    /// `session`.
    pub fn object_url(session: &Session, object: &str, id: &str) -> (url: String)
        ensures
            url@ == spec_object_url(session@.instance_url, object@, id@),
    {
        let url = api_url(session.instance_url.as_str(), "/sobjects/");
        let url = url.concat(object);
        let url = url.concat("/");
        url.concat(id)
    }

    /// Address of the records of type `object` on the instance of `session`.
    pub fn collection_url(session: &Session, object: &str) -> (url: String)
        ensures
            url@ == spec_collection_url(session@.instance_url, object@),
    {
        let url = api_url(session.instance_url.as_str(), "/sobjects/");
        url.concat(object)
    }

    /// Address that runs `soql` on the instance of `session`. Runs of
    /// whitespace in the query are collapsed to one space each, and every
    /// space is then written as a plus sign.
    pub fn query_url(session: &Session, soql: &str) -> (url: String)
        ensures
            url@ == spec_query_url(session@.instance_url, soql@),
    {
        let normalized = normalize_soql(soql);
        let encoded = spaces_to_plus(normalized.as_str());
        let url = api_url(session.instance_url.as_str(), "/query/?q=");
        url.concat(encoded.as_str())
    }

    /// The request that reads the record `id` of type `object` with
    /// `session`.
    pub fn read_request(session: &Session, object: &str, id: &str) -> (request: ObjectRequest)
        ensures
            request@ == spec_read_request(session@, object@, id@),
    {
        ObjectRequest {
            method: Method::Get,
            url: Self::object_url(session, object, id),
            bearer_token: session.access_token.clone(),
            body: None,
        }
    }

    /// The request that runs the query `soql` with `session`.
    pub fn query_request(session: &Session, soql: &str) -> (request: ObjectRequest)
        ensures
            request@ == spec_query_request(session@, soql@),
    {
        ObjectRequest {
            method: Method::Get,
            url: Self::query_url(session, soql),
            bearer_token: session.access_token.clone(),
            body: None,
        }
    }

    /// The request that creates the record that `request` describes, with
    /// `session`.
    pub fn create_request(session: &Session, request: &CreateObjectRecordRequest) -> (sent:
        ObjectRequest)
        ensures
            sent@ == spec_create_request(session@, *request),
    {
        ObjectRequest {
            method: Method::Post,
            url: Self::collection_url(session, request.object_type.as_str()),
            bearer_token: session.access_token.clone(),
            body: match &request.fields {
                Some(fields) => Some(fields.clone()),
                None => None,
            },
        }
    }

    /// The request that updates the record that `request` describes, with
    /// `session`.
    pub fn update_request(session: &Session, request: &CreateObjectRecordRequest) -> (sent:
        ObjectRequest)
        ensures
            sent@ == spec_update_request(session@, *request),
    {
        ObjectRequest {
            method: Method::Patch,
            url: match &request.id {
                Some(id) => Self::object_url(session, request.object_type.as_str(), id.as_str()),
                None => Self::collection_url(session, request.object_type.as_str()),
            },
            bearer_token: session.access_token.clone(),
            body: match &request.fields {
                Some(fields) => Some(fields.clone()),
                None => None,
            },
        }
    }

    /// Asks for the record `id` of type `object` at second `now`. With a
    /// valid session the caller is told to send the request that reads the
    /// record; otherwise it is told to refresh or to wait, as
    /// `get_access_token_at` decides.
    pub fn get_object_by_id_at(&mut self, object: &str, id: &str, now: i64) -> (dispatch: Dispatch)
        ensures
            final(self)@ == spec_after_step(old(self)@, now as int),
            dispatch_follows(
                dispatch,
                old(self)@,
                now as int,
                spec_read_request(old(self)@.session->0, object@, id@),
            ),
    {
        match self.get_access_token_at(now) {
            TokenDecision::UseCached(session) => Dispatch::Send(
                Self::read_request(&session, object, id),
            ),
            TokenDecision::Refresh(exchange) => Dispatch::Authorize(exchange),
            TokenDecision::AwaitRefresh => Dispatch::AwaitRefresh,
        }
    }

    /// `get_object_by_id_at` for the present second.
    pub fn get_object_by_id(&mut self, object: String, id: String) -> (dispatch: Dispatch)
        ensures
            exists|now: int|
                -CLOCK_LIMIT < now < CLOCK_LIMIT && final(self)@ == spec_after_step(old(self)@, now)
                    && #[trigger] dispatch_follows(
                    dispatch,
                    old(self)@,
                    now,
                    spec_read_request(old(self)@.session->0, object@, id@),
                ),
    {
        let now = now_utc();
        let dispatch = self.get_object_by_id_at(object.as_str(), id.as_str(), now);
        assert(dispatch_follows(
            dispatch,
            old(self)@,
            now as int,
            spec_read_request(old(self)@.session->0, object@, id@),
        ));
        dispatch
    }

    /// Asks for the query `soql` to be run at second `now`. With a valid
    /// session the caller is told to send the request that runs the
    /// normalized query; otherwise it is told to refresh or to wait.
    pub fn get_objects_at(&mut self, soql: &str, now: i64) -> (dispatch: Dispatch)
        ensures
            final(self)@ == spec_after_step(old(self)@, now as int),
            dispatch_follows(
                dispatch,
                old(self)@,
                now as int,
                spec_query_request(old(self)@.session->0, soql@),
            ),
    {
        match self.get_access_token_at(now) {
            TokenDecision::UseCached(session) => Dispatch::Send(
                Self::query_request(&session, soql),
            ),
            TokenDecision::Refresh(exchange) => Dispatch::Authorize(exchange),
            TokenDecision::AwaitRefresh => Dispatch::AwaitRefresh,
        }
    }

    /// `get_objects_at` for the present second.
    pub fn get_objects(&mut self, soql: String) -> (dispatch: Dispatch)
        ensures
            exists|now: int|
                -CLOCK_LIMIT < now < CLOCK_LIMIT && final(self)@ == spec_after_step(old(self)@, now)
                    && #[trigger] dispatch_follows(
                    dispatch,
                    old(self)@,
                    now,
                    spec_query_request(old(self)@.session->0, soql@),
                ),
    {
        let now = now_utc();
        let dispatch = self.get_objects_at(soql.as_str(), now);
        assert(dispatch_follows(
            dispatch,
            old(self)@,
            now as int,
            spec_query_request(old(self)@.session->0, soql@),
        ));
        dispatch
    }

    /// Asks for the record that `request` describes to be created at second
    /// `now`. A request that breaks a rule is rejected before anything else
    /// happens: the client is left as it was and nothing is to be sent.
    pub fn create_object_at(&mut self, request: &CreateObjectRecordRequest, now: i64) -> (dispatch:
        Result<Dispatch, ServiceError>)
        ensures
            match request.spec_violation() {
                Some(violation) => final(self)@ == old(self)@ && is_rejection(
                    dispatch,
                    violation,
                ),
                None => final(self)@ == spec_after_step(old(self)@, now as int)
                    && accepted_dispatch_follows(
                    dispatch,
                    old(self)@,
                    now as int,
                    spec_create_request(old(self)@.session->0, *request),
                ),
            },
    {
        match request.validate() {
            Err(error) => Err(error),
            Ok(()) => match self.get_access_token_at(now) {
                TokenDecision::UseCached(session) => Ok(
                    Dispatch::Send(Self::create_request(&session, request)),
                ),
                TokenDecision::Refresh(exchange) => Ok(Dispatch::Authorize(exchange)),
                TokenDecision::AwaitRefresh => Ok(Dispatch::AwaitRefresh),
            },
        }
    }

    /// `create_object_at` for the present second. An invalid request is
    /// rejected without the clock being read.
    pub fn create_object(&mut self, request: &CreateObjectRecordRequest) -> (dispatch: Result<
        Dispatch,
        ServiceError,
    >)
        ensures
            match request.spec_violation() {
                Some(violation) => final(self)@ == old(self)@ && is_rejection(
                    dispatch,
                    violation,
                ),
                None => exists|now: int|
                    -CLOCK_LIMIT < now < CLOCK_LIMIT && final(self)@ == spec_after_step(
                        old(self)@,
                        now,
                    ) && #[trigger] accepted_dispatch_follows(
                        dispatch,
                        old(self)@,
                        now,
                        spec_create_request(old(self)@.session->0, *request),
                    ),
            },
    {
        match request.validate() {
            Err(error) => Err(error),
            Ok(()) => {
                let now = now_utc();
                let dispatch = self.create_object_at(request, now);
                assert(accepted_dispatch_follows(
                    dispatch,
                    old(self)@,
                    now as int,
                    spec_create_request(old(self)@.session->0, *request),
                ));
                dispatch
            },
        }
    }

    /// Asks for the record that `request` describes to be updated at second
    /// `now`. A request that breaks a rule is rejected before anything else
    /// happens: the client is left as it was and nothing is to be sent.
    pub fn update_object_at(&mut self, request: &CreateObjectRecordRequest, now: i64) -> (dispatch:
        Result<Dispatch, ServiceError>)
        ensures
            match request.spec_violation() {
                Some(violation) => final(self)@ == old(self)@ && is_rejection(
                    dispatch,
                    violation,
                ),
                None => final(self)@ == spec_after_step(old(self)@, now as int)
                    && accepted_dispatch_follows(
                    dispatch,
                    old(self)@,
                    now as int,
                    spec_update_request(old(self)@.session->0, *request),
                ),
            },
    {
        match request.validate() {
            Err(error) => Err(error),
            Ok(()) => match self.get_access_token_at(now) {
                TokenDecision::UseCached(session) => Ok(
                    Dispatch::Send(Self::update_request(&session, request)),
                ),
                TokenDecision::Refresh(exchange) => Ok(Dispatch::Authorize(exchange)),
                TokenDecision::AwaitRefresh => Ok(Dispatch::AwaitRefresh),
            },
        }
    }

    /// `update_object_at` for the present second. An invalid request is
    /// rejected without the clock being read.
    pub fn update_object(&mut self, request: &CreateObjectRecordRequest) -> (dispatch: Result<
        Dispatch,
        ServiceError,
    >)
        ensures
            match request.spec_violation() {
                Some(violation) => final(self)@ == old(self)@ && is_rejection(
                    dispatch,
                    violation,
                ),
                None => exists|now: int|
                    -CLOCK_LIMIT < now < CLOCK_LIMIT && final(self)@ == spec_after_step(
                        old(self)@,
                        now,
                    ) && #[trigger] accepted_dispatch_follows(
                        dispatch,
                        old(self)@,
                        now,
                        spec_update_request(old(self)@.session->0, *request),
                    ),
            },
    {
        match request.validate() {
            Err(error) => Err(error),
            Ok(()) => {
                let now = now_utc();
                let dispatch = self.update_object_at(request, now);
                assert(accepted_dispatch_follows(
                    dispatch,
                    old(self)@,
                    now as int,
                    spec_update_request(old(self)@.session->0, *request),
                ));
                dispatch
            },
        }
    }

    /// What reading the record `id` of type `object` yields, given the status
    /// and body of the answer and the document that the body holds, if it
    /// holds one. Status 404 means that the record does not exist. A
    /// document that came with a status from 200 to 299 is returned as it
    /// is. Any other answer is a failed retrieval that names the record, the
    /// status and the body.
    pub fn object_from_parsed(
        object: &str,
        id: &str,
        status: u16,
        body: &[u8],
        parsed: Option<Value>,
    ) -> (result: Result<Value, ServiceError>)
        ensures
            read_yields(result, object@, id@, status, body@, parsed),
    {
        if status == 404 {
            return Err(
                ServiceError::ObjectNotFound { object_type: object.to_owned(), id: id.to_owned() },
            );
        }
        if 200 <= status && status < 300 {
            if let Some(document) = parsed {
                return Ok(document);
            }
        }
        let text = status_text(status);
        let text = text.concat(" for ");
        let text = text.concat(object);
        let text = text.concat("/");
        let text = text.concat(id);
        let text = text.concat(": ");
        let text = text.concat(read_lossy(body).as_str());
        Err(ServiceError::ObjectRetrievalFailed(text))
    }

    /// What reading the record `id` of type `object` yields, given the status
    /// and body of the answer. The body is decoded as JSON, and what it
    /// decodes to decides as `object_from_parsed` says.
    pub fn object_from_response(object: &str, id: &str, status: u16, body: &[u8]) -> (result:
        Result<Value, ServiceError>)
        ensures
            read_yields(result, object@, id@, status, body@, decoded_json(body@)),
            result is Ok <==> is_success(status) && is_json_text(body@),
    {
        Self::object_from_parsed(object, id, status, body, decode(body))
    }

    /// What running a query yields, given the status and body of the answer
    /// and the document that the body holds, if it holds one. A document is
    /// returned as it is, whatever the status. A body that holds none is a
    /// failed retrieval that names the status and the body.
    pub fn objects_from_parsed(status: u16, body: &[u8], parsed: Option<Value>) -> (result:
        Result<Value, ServiceError>)
        ensures
            query_yields(result, status, body@, parsed),
    {
        match parsed {
            Some(document) => Ok(document),
            None => {
                let text = status_text(status);
                let text = text.concat(": ");
                let text = text.concat(read_lossy(body).as_str());
                Err(ServiceError::ObjectRetrievalFailed(text))
            },
        }
    }

    /// What running a query yields, given the status and body of the answer.
    /// The body is decoded as JSON, and what it decodes to is returned
    /// whatever the status.
    pub fn objects_from_response(status: u16, body: &[u8]) -> (result: Result<Value, ServiceError>)
        ensures
            query_yields(result, status, body@, decoded_json(body@)),
            result is Ok <==> is_json_text(body@),
    {
        Self::objects_from_parsed(status, body, decode(body))
    }

    /// What a create or update yields, given the status and body of the
    /// answer. A status from 200 to 299 means that the record was accepted,
    /// and is passed on. With any other status the record was rejected, and
    /// the error carries the body of the answer byte for byte, whatever it
    /// holds.
    pub fn transaction_from_response(status: u16, body: &[u8]) -> (result: Result<
        TransactionSuccessfulResponse,
        ServiceError,
    >)
        ensures
            write_yields(result, status, body@),
            result is Ok <==> is_success(status),
    {
        if 200 <= status && status < 300 {
            Ok(TransactionSuccessfulResponse::new("Record successfully created.".to_owned(), status))
        } else {
            Err(ServiceError::ObjectUpdateFailed(slice_to_vec(body)))
        }
    }

    /// The error for a request to Salesforce that got no answer: it failed
    /// in transport or timed out. `diagnostic` says how.
    pub fn unanswered(diagnostic: &str) -> (error: ServiceError)
        ensures
            error matches ServiceError::ObjectRetrievalFailed(message) && message@
                == spec_unanswered_text(diagnostic@),
    {
        ServiceError::ObjectRetrievalFailed(
            "Salesforce did not answer: ".to_owned().concat(diagnostic),
        )
    }
}

} // verus!
