//! The session token an organization's client caches, and when it is fresh.

use crate::clock::{now_utc, CLOCK_LIMIT};
use crate::errors::ServiceError;
use vstd::prelude::*;

verus! {

/// Seconds a session is used for after it was granted, whatever lifetime the
/// provider has in mind.
pub const SESSION_LIFETIME_SECONDS: i64 = 1800;

/// A granted session: the bearer token, the instance it is valid for, and the
/// second from which it is no longer used.
#[derive(Debug, Clone, PartialEq, Eq)]
pub struct Session {
    pub access_token: String,
    pub instance_url: String,
    pub expires_at: i64,
}

/// Mathematical value of a `Session`.
pub struct SessionView {
    pub access_token: Seq<char>,
    pub instance_url: Seq<char>,
    pub expires_at: int,
}

impl View for Session {
    type V = SessionView;

    open spec fn view(&self) -> SessionView {
        SessionView {
            access_token: self.access_token@,
            instance_url: self.instance_url@,
            expires_at: self.expires_at as int,
        }
    }
}

/// Where a cached session stands at a given second.
#[derive(Debug, Clone, Copy, PartialEq, Eq, Structural)]
pub enum Phase {
    /// Nothing is cached.
    Empty,
    /// A session is cached and has not expired.
    Valid,
    /// A session is cached and its expiry has been reached.
    Stale,
}

/// Phase of `session` at second `now`. A session is stale from the very
/// second of its expiry.
pub open spec fn spec_phase(session: Option<SessionView>, now: int) -> Phase {
    match session {
        None => Phase::Empty,
        Some(s) => if now < s.expires_at {
            Phase::Valid
        } else {
            Phase::Stale
        },
    }
}

/// The session that replaces whatever was cached when an authorization
/// granted at second `now` yields `access_token` and `instance_url`.
pub open spec fn spec_granted(
    access_token: Seq<char>,
    instance_url: Seq<char>,
    now: int,
) -> SessionView {
    SessionView { access_token, instance_url, expires_at: now + SESSION_LIFETIME_SECONDS }
}

/// `token` is what looking for the cached token yields at second `now`: the
/// token of a valid session, nothing for a stale one, and an error where no
/// session is cached.
pub open spec fn token_check_yields(
    token: Result<Option<String>, ServiceError>,
    session: Option<SessionView>,
    now: int,
) -> bool {
    match spec_phase(session, now) {
        Phase::Empty => token == Err::<Option<String>, ServiceError>(
            ServiceError::AccessTokenNotFound,
        ),
        Phase::Stale => token == Ok::<Option<String>, ServiceError>(None),
        Phase::Valid => token matches Ok(Some(t)) && t@ == session->0.access_token,
    }
}

/// The cached session of one client. Either a whole session is held, or
/// nothing is: a token never stands without its instance URL and expiry.
#[derive(Debug)]
pub struct TokenState {
    access_token: Option<String>,
    instance_url: Option<String>,
    expires_at: Option<i64>,
}

impl View for TokenState {
    type V = Option<SessionView>;

    closed spec fn view(&self) -> Option<SessionView> {
        match (self.access_token, self.instance_url, self.expires_at) {
            (Some(access_token), Some(instance_url), Some(expires_at)) => Some(
                SessionView {
                    access_token: access_token@,
                    instance_url: instance_url@,
                    expires_at: expires_at as int,
                },
            ),
            _ => None,
        }
    }
}

impl Clone for TokenState {
    fn clone(&self) -> (copy: Self)
        ensures
            copy@ == self@,
    {
        proof {
            use_type_invariant(self);
        }
        match (&self.access_token, &self.instance_url, self.expires_at) {
            (Some(access_token), Some(instance_url), Some(expires_at)) => TokenState {
                access_token: Some(access_token.clone()),
                instance_url: Some(instance_url.clone()),
                expires_at: Some(expires_at),
            },
            _ => TokenState { access_token: None, instance_url: None, expires_at: None },
        }
    }
}

impl TokenState {
    #[verifier::type_invariant]
    spec fn whole_or_empty(&self) -> bool {
        &&& self.access_token is Some <==> self.instance_url is Some
        &&& self.access_token is Some <==> self.expires_at is Some
    }

    /// A state that caches nothing.
    pub fn new() -> (state: Self)
        ensures
            state@ is None,
    {
        TokenState { access_token: None, instance_url: None, expires_at: None }
    }

    /// Phase of the cached session at second `now`.
    pub fn phase_at(&self, now: i64) -> (phase: Phase)
        ensures
            phase == spec_phase(self@, now as int),
    {
        proof {
            use_type_invariant(self);
        }
        match self.expires_at {
            None => Phase::Empty,
            Some(expires_at) => if now < expires_at {
                Phase::Valid
            } else {
                Phase::Stale
            },
        }
    }

    /// Whether a new session must be acquired before the next request made
    /// at second `now`: nothing is cached, or what is cached has expired.
    pub fn refresh_required_at(&self, now: i64) -> (required: bool)
        ensures
            required == (spec_phase(self@, now as int) != Phase::Valid),
    {
        proof {
            use_type_invariant(self);
        }
        match self.expires_at {
            None => true,
            Some(expiration) => expiration <= now,
        }
    }

    /// `refresh_required_at` for the present second. With nothing cached a
    /// refresh is required whatever the clock reads.
    pub fn refresh_required(&self) -> (required: bool)
        ensures
            self@ is None ==> required,
            exists|now: int|
                -CLOCK_LIMIT < now < CLOCK_LIMIT && required == (#[trigger] spec_phase(self@, now)
                    != Phase::Valid),
    {
        let now = now_utc();
        let required = self.refresh_required_at(now);
        assert(required == (spec_phase(self@, now as int) != Phase::Valid));
        required
    }

    /// The cached token if it is still valid at second `now`, nothing if it
    /// has expired, and an error if no token is cached at all.
    pub fn check_access_token_at(&self, now: i64) -> (token: Result<Option<String>, ServiceError>)
        ensures
            token_check_yields(token, self@, now as int),
    {
        proof {
            use_type_invariant(self);
        }
        match &self.access_token {
            None => Err(ServiceError::AccessTokenNotFound),
            Some(token) => {
                if self.refresh_required_at(now) {
                    Ok(None)
                } else {
                    Ok(Some(token.clone()))
                }
            },
        }
    }

    /// `check_access_token_at` for the present second. An error is returned
    /// exactly when no token is cached; a token that is returned is the
    /// cached one.
    pub fn check_access_token(&self) -> (token: Result<Option<String>, ServiceError>)
        ensures
            self@ is None <==> token is Err,
            exists|now: int|
                -CLOCK_LIMIT < now < CLOCK_LIMIT && #[trigger] token_check_yields(
                    token,
                    self@,
                    now,
                ),
    {
        let now = now_utc();
        let token = self.check_access_token_at(now);
        assert(token_check_yields(token, self@, now as int));
        token
    }

    /// The cached session if it is valid at second `now`.
    pub fn valid_session_at(&self, now: i64) -> (session: Option<Session>)
        ensures
            match spec_phase(self@, now as int) {
                Phase::Valid => session matches Some(s) && Some(s@) == self@,
                _ => session is None,
            },
    {
        proof {
            use_type_invariant(self);
        }
        match (&self.access_token, &self.instance_url, self.expires_at) {
            (Some(access_token), Some(instance_url), Some(expires_at)) => {
                if now < expires_at {
                    Some(
                        Session {
                            access_token: access_token.clone(),
                            instance_url: instance_url.clone(),
                            expires_at,
                        },
                    )
                } else {
                    None
                }
            },
            _ => None,
        }
    }

    /// Replaces whatever is cached by the session granted at second `now`,
    /// which expires `SESSION_LIFETIME_SECONDS` later, and returns that
    /// session.
    pub fn store(&mut self, access_token: String, instance_url: String, now: i64) -> (session:
        Session)
        requires
            now + SESSION_LIFETIME_SECONDS <= i64::MAX,
        ensures
            final(self)@ == Some(spec_granted(access_token@, instance_url@, now as int)),
            session@ == spec_granted(access_token@, instance_url@, now as int),
    {
        let expires_at: i64 = now + SESSION_LIFETIME_SECONDS;
        let session = Session {
            access_token: access_token.clone(),
            instance_url: instance_url.clone(),
            expires_at,
        };
        *self = TokenState {
            access_token: Some(access_token),
            instance_url: Some(instance_url),
            expires_at: Some(expires_at),
        };
        session
    }
}

} // verus!
