//! The token lifecycle of one client, as a mathematical model: what a caller
//! is told to do at a given second, and how the client's state moves. The
//! client's operations are specified against this model, and the laws at the
//! end of this file are proved of it.

use crate::config::CredentialsView;
use crate::organization::SalesforceOrganization;
use crate::token::{spec_granted, spec_phase, Phase, SessionView, SESSION_LIFETIME_SECONDS};
use vstd::prelude::*;

verus! {

/// Mathematical value of a client.
pub struct ServiceView {
    pub organization: SalesforceOrganization,
    pub credentials: CredentialsView,
    pub timeout_seconds: u64,
    pub session: Option<SessionView>,
    /// Whether some caller is exchanging the credentials for a new session.
    pub refresh_in_flight: bool,
}

/// What a caller that needs a token is told.
#[derive(Debug, Clone, Copy, PartialEq, Eq, Structural)]
pub enum Step {
    /// The cached session is valid: use it.
    UseCached,
    /// No valid session and nobody is refreshing: this caller refreshes.
    StartRefresh,
    /// No valid session and a refresh is in flight: await its outcome.
    AwaitRefresh,
}

/// What came back from the authorization endpoint.
pub enum OutcomeView {
    /// A JSON object, with the two members the gateway reads where present.
    Responded { access_token: Option<Seq<char>>, instance_url: Option<Seq<char>> },
    /// An answer that is not a JSON object.
    Undecodable(Seq<char>),
    /// No answer: the exchange failed in transport or timed out.
    TransportFailed(Seq<char>),
}

/// What a caller is told at second `now`. A valid session is used whether or
/// not a refresh is in flight.
pub open spec fn spec_step(client: ServiceView, now: int) -> Step {
    if spec_phase(client.session, now) == Phase::Valid {
        Step::UseCached
    } else if client.refresh_in_flight {
        Step::AwaitRefresh
    } else {
        Step::StartRefresh
    }
}

/// The client after a caller was told what to do at second `now`: only the
/// caller that starts a refresh changes anything, and only the flag.
pub open spec fn spec_after_step(client: ServiceView, now: int) -> ServiceView {
    if spec_step(client, now) == Step::StartRefresh {
        ServiceView { refresh_in_flight: true, ..client }
    } else {
        client
    }
}

/// Token and instance URL that `outcome` grants, if it grants a session.
pub open spec fn spec_grant(outcome: OutcomeView) -> Option<(Seq<char>, Seq<char>)> {
    match outcome {
        OutcomeView::Responded { access_token: Some(token), instance_url: Some(url) } => Some(
            (token, url),
        ),
        _ => None,
    }
}

/// The client after the refresh in flight ended with `outcome` at second
/// `now`. A grant replaces the session as a whole; anything else leaves the
/// session as it was. Either way no refresh is in flight afterwards.
pub open spec fn spec_after_refresh(
    client: ServiceView,
    outcome: OutcomeView,
    now: int,
) -> ServiceView {
    match spec_grant(outcome) {
        Some((token, url)) => ServiceView {
            session: Some(spec_granted(token, url, now)),
            refresh_in_flight: false,
            ..client
        },
        None => ServiceView { refresh_in_flight: false, ..client },
    }
}

/// The client after one caller for each entry of `times` was told what to
/// do, in that order, each at the second its entry names.
pub open spec fn spec_after_requests(client: ServiceView, times: Seq<int>) -> ServiceView
    decreases times.len(),
{
    if times.len() == 0 {
        client
    } else {
        spec_after_step(spec_after_requests(client, times.drop_last()), times.last())
    }
}

/// What the caller with index `k` is told when callers arrive as `times`
/// says.
pub open spec fn spec_nth_step(client: ServiceView, times: Seq<int>, k: int) -> Step {
    spec_step(spec_after_requests(client, times.take(k)), times[k])
}

/// How many of the callers that arrive as `times` says start a refresh.
pub open spec fn spec_refreshes_started(client: ServiceView, times: Seq<int>) -> nat
    decreases times.len(),
{
    if times.len() == 0 {
        0
    } else {
        let before = spec_refreshes_started(client, times.drop_last());
        if spec_nth_step(client, times, times.len() - 1) == Step::StartRefresh {
            before + 1
        } else {
            before
        }
    }
}

/// Whether the session of `client` is valid at none of `times`.
pub open spec fn valid_at_none(client: ServiceView, times: Seq<int>) -> bool {
    forall|k: int| 0 <= k < times.len() ==> spec_phase(client.session, #[trigger] times[k])
        != Phase::Valid
}

/// Whether the session of `client` is valid at all of `times`.
pub open spec fn valid_at_all(client: ServiceView, times: Seq<int>) -> bool {
    forall|k: int| 0 <= k < times.len() ==> spec_phase(client.session, #[trigger] times[k])
        == Phase::Valid
}

/// Whether two clients act for the same organization with the same
/// credentials and the same limit on their calls.
pub open spec fn same_identity(a: ServiceView, b: ServiceView) -> bool {
    &&& a.organization == b.organization
    &&& a.credentials == b.credentials
    &&& a.timeout_seconds == b.timeout_seconds
}

/// A client that was just made: nothing cached, nothing in flight.
pub open spec fn is_fresh(client: ServiceView) -> bool {
    client.session is None && !client.refresh_in_flight
}

/// The answer that grants the session with `token` on the instance `url`.
pub open spec fn spec_granting(token: Seq<char>, url: Seq<char>) -> OutcomeView {
    OutcomeView::Responded { access_token: Some(token), instance_url: Some(url) }
}

/// The callers before the last one are told the same whether or not the
/// last one arrives.
proof fn lemma_earlier_callers(client: ServiceView, times: Seq<int>, k: int)
    requires
        0 <= k < times.len() - 1,
    ensures
        spec_nth_step(client, times, k) == spec_nth_step(client, times.drop_last(), k),
{
    assert(times.take(k) =~= times.drop_last().take(k));
}

/// The last caller is told what the client says after all callers before it.
proof fn lemma_last_caller(client: ServiceView, times: Seq<int>)
    requires
        times.len() > 0,
    ensures
        spec_nth_step(client, times, times.len() - 1) == spec_step(
            spec_after_requests(client, times.drop_last()),
            times.last(),
        ),
{
    assert(times.take(times.len() - 1) =~= times.drop_last());
}

/// No step of the lifecycle changes whom a client acts for, with which
/// credentials, or how long its calls may take.
pub proof fn lemma_lifecycle_keeps_identity(
    client: ServiceView,
    outcome: OutcomeView,
    now: int,
    times: Seq<int>,
)
    ensures
        same_identity(spec_after_step(client, now), client),
        same_identity(spec_after_refresh(client, outcome, now), client),
        same_identity(spec_after_requests(client, times), client),
    decreases times.len(),
{
    if times.len() > 0 {
        lemma_lifecycle_keeps_identity(client, outcome, now, times.drop_last());
    }
}

/// Only the end of a refresh changes the cached session: telling callers
/// what to do never does.
pub proof fn lemma_requests_keep_session(client: ServiceView, times: Seq<int>)
    ensures
        spec_after_requests(client, times).session == client.session,
    decreases times.len(),
{
    if times.len() > 0 {
        lemma_requests_keep_session(client, times.drop_last());
    }
}

/// While the session is valid every caller is told to use it, no refresh is
/// started, and the client stays as it is.
pub proof fn lemma_valid_session_serves_all(client: ServiceView, times: Seq<int>)
    requires
        valid_at_all(client, times),
    ensures
        spec_after_requests(client, times) == client,
        spec_refreshes_started(client, times) == 0,
        forall|k: int|
            0 <= k < times.len() ==> #[trigger] spec_nth_step(client, times, k) == Step::UseCached,
    decreases times.len(),
{
    if times.len() > 0 {
        let earlier = times.drop_last();
        assert forall|k: int| 0 <= k < earlier.len() implies spec_phase(
            client.session,
            #[trigger] earlier[k],
        ) == Phase::Valid by {
            assert(earlier[k] == times[k]);
        }
        lemma_valid_session_serves_all(client, earlier);
        lemma_last_caller(client, times);
        assert(spec_phase(client.session, times[times.len() - 1]) == Phase::Valid);
        assert forall|k: int| 0 <= k < times.len() implies #[trigger] spec_nth_step(
            client,
            times,
            k,
        ) == Step::UseCached by {
            if k < times.len() - 1 {
                lemma_earlier_callers(client, times, k);
            }
        }
    }
}

/// While a refresh is in flight, every caller that finds no valid session is
/// told to wait, no second refresh is started, and the client stays as it
/// is.
pub proof fn lemma_callers_wait_while_in_flight(client: ServiceView, times: Seq<int>)
    requires
        client.refresh_in_flight,
        valid_at_none(client, times),
    ensures
        spec_after_requests(client, times) == client,
        spec_refreshes_started(client, times) == 0,
        forall|k: int|
            0 <= k < times.len() ==> #[trigger] spec_nth_step(client, times, k)
                == Step::AwaitRefresh,
    decreases times.len(),
{
    if times.len() > 0 {
        let earlier = times.drop_last();
        assert forall|k: int| 0 <= k < earlier.len() implies spec_phase(
            client.session,
            #[trigger] earlier[k],
        ) != Phase::Valid by {
            assert(earlier[k] == times[k]);
        }
        lemma_callers_wait_while_in_flight(client, earlier);
        lemma_last_caller(client, times);
        assert(spec_phase(client.session, times[times.len() - 1]) != Phase::Valid);
        assert forall|k: int| 0 <= k < times.len() implies #[trigger] spec_nth_step(
            client,
            times,
            k,
        ) == Step::AwaitRefresh by {
            if k < times.len() - 1 {
                lemma_earlier_callers(client, times, k);
            }
        }
    }
}

/// Single flight: of any number of callers that find no valid session while
/// no refresh is in flight, the first starts the one refresh and every other
/// one is told to wait for it. The cached session is not touched until that
/// refresh ends.
pub proof fn lemma_single_flight(client: ServiceView, times: Seq<int>)
    requires
        !client.refresh_in_flight,
        valid_at_none(client, times),
        times.len() >= 1,
    ensures
        spec_nth_step(client, times, 0) == Step::StartRefresh,
        forall|k: int|
            1 <= k < times.len() ==> #[trigger] spec_nth_step(client, times, k)
                == Step::AwaitRefresh,
        spec_refreshes_started(client, times) == 1,
        spec_after_requests(client, times) == (ServiceView { refresh_in_flight: true, ..client }),
    decreases times.len(),
{
    let started = ServiceView { refresh_in_flight: true, ..client };
    lemma_last_caller(client, times);
    assert(spec_phase(client.session, times[0]) != Phase::Valid);
    assert(spec_phase(client.session, times[times.len() - 1]) != Phase::Valid);
    if times.len() == 1 {
        assert(times.drop_last() =~= Seq::<int>::empty());
        assert(times.take(0) =~= Seq::<int>::empty());
        assert(spec_refreshes_started(client, times.drop_last()) == 0);
    } else {
        let earlier = times.drop_last();
        assert forall|k: int| 0 <= k < earlier.len() implies spec_phase(
            client.session,
            #[trigger] earlier[k],
        ) != Phase::Valid by {
            assert(earlier[k] == times[k]);
        }
        lemma_single_flight(client, earlier);
        lemma_earlier_callers(client, times, 0);
        assert forall|k: int| 1 <= k < times.len() implies #[trigger] spec_nth_step(
            client,
            times,
            k,
        ) == Step::AwaitRefresh by {
            if k < times.len() - 1 {
                lemma_earlier_callers(client, times, k);
            }
        }
    }
}

/// Every caller that asks after a refresh ended with a grant, and before the
/// granted session expires, is handed that very session: all of them get the
/// same token, and none starts another refresh.
pub proof fn lemma_grant_is_shared(
    client: ServiceView,
    token: Seq<char>,
    url: Seq<char>,
    granted_at: int,
    times: Seq<int>,
)
    requires
        forall|k: int|
            0 <= k < times.len() ==> #[trigger] times[k] < granted_at + SESSION_LIFETIME_SECONDS,
    ensures
        ({
            let after = spec_after_refresh(client, spec_granting(token, url), granted_at);
            &&& after.session == Some(spec_granted(token, url, granted_at))
            &&& !after.refresh_in_flight
            &&& forall|k: int|
                0 <= k < times.len() ==> #[trigger] spec_nth_step(after, times, k)
                    == Step::UseCached
            &&& spec_refreshes_started(after, times) == 0
            &&& spec_after_requests(after, times) == after
        }),
{
    let after = spec_after_refresh(client, spec_granting(token, url), granted_at);
    assert forall|k: int| 0 <= k < times.len() implies spec_phase(
        after.session,
        #[trigger] times[k],
    ) == Phase::Valid by {
        assert(times[k] < granted_at + SESSION_LIFETIME_SECONDS);
    }
    lemma_valid_session_serves_all(after, times);
}

/// A client that was just made authorizes exactly once before its first
/// request: its first caller is told to refresh, and once that refresh has
/// granted a session, no caller is told to refresh again before the session
/// expires, however many ask.
pub proof fn lemma_fresh_client_authorizes_once(
    client: ServiceView,
    first_at: int,
    token: Seq<char>,
    url: Seq<char>,
    granted_at: int,
    times: Seq<int>,
)
    requires
        is_fresh(client),
        forall|k: int|
            0 <= k < times.len() ==> #[trigger] times[k] < granted_at + SESSION_LIFETIME_SECONDS,
    ensures
        spec_step(client, first_at) == Step::StartRefresh,
        ({
            let after = spec_after_refresh(
                spec_after_step(client, first_at),
                spec_granting(token, url),
                granted_at,
            );
            &&& forall|k: int|
                0 <= k < times.len() ==> #[trigger] spec_nth_step(after, times, k)
                    == Step::UseCached
            &&& spec_refreshes_started(after, times) == 0
        }),
{
    lemma_grant_is_shared(spec_after_step(client, first_at), token, url, granted_at, times);
}

/// A session is never used from the second of its expiry on: the caller is
/// told to refresh, or to wait for the refresh in flight.
pub proof fn lemma_expired_session_is_never_used(client: ServiceView, now: int)
    requires
        client.session matches Some(session) && session.expires_at <= now,
    ensures
        spec_step(client, now) != Step::UseCached,
        !client.refresh_in_flight ==> spec_step(client, now) == Step::StartRefresh,
{
}

/// After expiry exactly one new authorization is made, however many callers
/// ask, and what it grants takes the place of the expired session: a caller
/// that is handed a token afterwards is handed the new one.
pub proof fn lemma_expiry_triggers_one_refresh(
    client: ServiceView,
    times: Seq<int>,
    token: Seq<char>,
    url: Seq<char>,
    granted_at: int,
)
    requires
        client.session matches Some(session) && forall|k: int|
            0 <= k < times.len() ==> session.expires_at <= #[trigger] times[k],
        !client.refresh_in_flight,
        times.len() >= 1,
    ensures
        spec_refreshes_started(client, times) == 1,
        spec_after_refresh(
            spec_after_requests(client, times),
            spec_granting(token, url),
            granted_at,
        ).session == Some(spec_granted(token, url, granted_at)),
{
    assert forall|k: int| 0 <= k < times.len() implies spec_phase(
        client.session,
        #[trigger] times[k],
    ) != Phase::Valid by {
        assert(client.session->0.expires_at <= times[k]);
    }
    lemma_single_flight(client, times);
}

/// An outcome that grants no session leaves the cached session exactly as it
/// was: an empty client stays empty, a stale session stays stale, and no
/// half of a session is ever stored.
pub proof fn lemma_failed_refresh_keeps_session(
    client: ServiceView,
    outcome: OutcomeView,
    now: int,
)
    requires
        spec_grant(outcome) is None,
    ensures
        spec_after_refresh(client, outcome, now).session == client.session,
        !spec_after_refresh(client, outcome, now).refresh_in_flight,
{
}

/// An answer that lacks the access token or the instance URL grants nothing.
pub proof fn lemma_partial_answer_grants_nothing(
    access_token: Option<Seq<char>>,
    instance_url: Option<Seq<char>>,
)
    requires
        access_token is None || instance_url is None,
    ensures
        spec_grant(OutcomeView::Responded { access_token, instance_url }) is None,
{
}

} // verus!
