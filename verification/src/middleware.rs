//! Authentication gate decisions, one per middleware variant. Each
//! takes the session cookie's token (if any) and a clock reading (if
//! the clock answered) and decides what the HTTP layer must do; the
//! HTTP layer itself only carries the decision out.

use vstd::prelude::*;

use crate::claims::UserId;
use crate::codec::{spec_verify, SessionKeys};
use crate::errors::{AppError, AppErrorView};

verus! {

/// Outcome of a required-authentication gate.
pub enum AuthDecision {
    /// Attach the subject and run the handler.
    Proceed(UserId),
    /// Answer at once with this error.
    Deny(AppError),
}

pub enum AuthDecisionView {
    Proceed(UserId),
    Deny(AppErrorView),
}

impl View for AuthDecision {
    type V = AuthDecisionView;

    open spec fn view(&self) -> AuthDecisionView {
        match self {
            AuthDecision::Proceed(sub) => AuthDecisionView::Proceed(*sub),
            AuthDecision::Deny(e) => AuthDecisionView::Deny(e@),
        }
    }
}

/// Outcome of the optional-authentication gate.
pub enum OptionalAuthDecision {
    /// Run the handler with this identity; when `scrub_cookie` is set,
    /// the stale auth cookies must be cleared on the outgoing response.
    Proceed { identity: Option<UserId>, scrub_cookie: bool },
    /// Answer at once with this error.
    Deny(AppError),
}

pub enum OptionalAuthDecisionView {
    Proceed { identity: Option<UserId>, scrub_cookie: bool },
    Deny(AppErrorView),
}

impl View for OptionalAuthDecision {
    type V = OptionalAuthDecisionView;

    open spec fn view(&self) -> OptionalAuthDecisionView {
        match self {
            OptionalAuthDecision::Proceed { identity, scrub_cookie } => {
                OptionalAuthDecisionView::Proceed {
                    identity: *identity,
                    scrub_cookie: *scrub_cookie,
                }
            },
            OptionalAuthDecision::Deny(e) => OptionalAuthDecisionView::Deny(e@),
        }
    }
}

/// The required gate: no cookie or an undecodable token is refused, a
/// genuine token past its expiry is classified as an expired session —
/// never as a fresh one — and a clock failure is an environment fault.
pub open spec fn spec_required_auth(
    token: Option<Seq<char>>,
    private_pem: Seq<u8>,
    now: Option<u64>,
) -> AuthDecisionView {
    match token {
        None => AuthDecisionView::Deny(AppErrorView::Unauthorized("Authorization required"@)),
        Some(t) => match spec_verify(t, private_pem) {
            None => AuthDecisionView::Deny(AppErrorView::Unauthorized("Wrong password"@)),
            Some(c) => match now {
                None => AuthDecisionView::Deny(AppErrorView::System("Time went backwards"@)),
                Some(n) => if n >= c.exp {
                    AuthDecisionView::Deny(AppErrorView::SessionExpired)
                } else {
                    AuthDecisionView::Proceed(c.sub)
                },
            },
        },
    }
}

/// The verified-only gate: as the required gate, and a live session of
/// an account whose contact channel was never confirmed is refused
/// with its own message.
pub open spec fn spec_required_verified_auth(
    token: Option<Seq<char>>,
    private_pem: Seq<u8>,
    now: Option<u64>,
) -> AuthDecisionView {
    match token {
        None => AuthDecisionView::Deny(AppErrorView::Unauthorized("Authorization required"@)),
        Some(t) => match spec_verify(t, private_pem) {
            None => AuthDecisionView::Deny(AppErrorView::Unauthorized("Wrong password"@)),
            Some(c) => match now {
                None => AuthDecisionView::Deny(AppErrorView::System("Time went backwards"@)),
                Some(n) => if n >= c.exp {
                    AuthDecisionView::Deny(AppErrorView::SessionExpired)
                } else if !c.verified {
                    AuthDecisionView::Deny(
                        AppErrorView::Unauthorized("Contact info not verified"@),
                    )
                } else {
                    AuthDecisionView::Proceed(c.sub)
                },
            },
        },
    }
}

/// The optional gate: anonymous requests pass through untouched; a
/// present but invalid or stale token also passes through anonymously,
/// but asks the HTTP layer to scrub the broken cookie from the
/// outgoing response so it is not resent forever.
pub open spec fn spec_optional_auth(
    token: Option<Seq<char>>,
    private_pem: Seq<u8>,
    now: Option<u64>,
) -> OptionalAuthDecisionView {
    match token {
        None => OptionalAuthDecisionView::Proceed { identity: None, scrub_cookie: false },
        Some(t) => match spec_verify(t, private_pem) {
            None => OptionalAuthDecisionView::Proceed { identity: None, scrub_cookie: true },
            Some(c) => match now {
                None => OptionalAuthDecisionView::Deny(
                    AppErrorView::System("Time went backwards"@),
                ),
                Some(n) => if n >= c.exp {
                    OptionalAuthDecisionView::Proceed { identity: None, scrub_cookie: true }
                } else {
                    OptionalAuthDecisionView::Proceed {
                        identity: Some(c.sub),
                        scrub_cookie: false,
                    }
                },
            },
        },
    }
}

/// Gate for routes that need a signed-in subject.
pub fn required_auth(keys: &SessionKeys, token: Option<&str>, now: Option<u64>) -> (r:
    AuthDecision)
    ensures
        r@ == spec_required_auth(
            match token {
                Some(t) => Some(t@),
                None => None,
            },
            keys.private_pem@,
            now,
        ),
{
    let t = match token {
        Some(t) => t,
        None => {
            return AuthDecision::Deny(AppError::unauthorized("Authorization required"));
        },
    };
    let c = match keys.verify(t) {
        Some(c) => c,
        None => {
            return AuthDecision::Deny(AppError::unauthorized("Wrong password"));
        },
    };
    let n = match now {
        Some(n) => n,
        None => {
            return AuthDecision::Deny(AppError::system_error("Time went backwards"));
        },
    };
    if n >= c.exp {
        return AuthDecision::Deny(AppError::SessionExpired);
    }
    AuthDecision::Proceed(c.sub)
}

/// Gate for routes that need a signed-in subject with a confirmed
/// contact channel.
pub fn required_verified_auth(keys: &SessionKeys, token: Option<&str>, now: Option<u64>) -> (r:
    AuthDecision)
    ensures
        r@ == spec_required_verified_auth(
            match token {
                Some(t) => Some(t@),
                None => None,
            },
            keys.private_pem@,
            now,
        ),
{
    let t = match token {
        Some(t) => t,
        None => {
            return AuthDecision::Deny(AppError::unauthorized("Authorization required"));
        },
    };
    let c = match keys.verify(t) {
        Some(c) => c,
        None => {
            return AuthDecision::Deny(AppError::unauthorized("Wrong password"));
        },
    };
    let n = match now {
        Some(n) => n,
        None => {
            return AuthDecision::Deny(AppError::system_error("Time went backwards"));
        },
    };
    if n >= c.exp {
        return AuthDecision::Deny(AppError::SessionExpired);
    }
    if !c.verified {
        return AuthDecision::Deny(AppError::unauthorized("Contact info not verified"));
    }
    AuthDecision::Proceed(c.sub)
}

/// Gate for routes that work with or without a signed-in subject.
pub fn optional_auth(keys: &SessionKeys, token: Option<&str>, now: Option<u64>) -> (r:
    OptionalAuthDecision)
    ensures
        r@ == spec_optional_auth(
            match token {
                Some(t) => Some(t@),
                None => None,
            },
            keys.private_pem@,
            now,
        ),
{
    let t = match token {
        Some(t) => t,
        None => {
            return OptionalAuthDecision::Proceed { identity: None, scrub_cookie: false };
        },
    };
    let c = match keys.verify(t) {
        Some(c) => c,
        None => {
            return OptionalAuthDecision::Proceed { identity: None, scrub_cookie: true };
        },
    };
    let n = match now {
        Some(n) => n,
        None => {
            return OptionalAuthDecision::Deny(AppError::system_error("Time went backwards"));
        },
    };
    if n >= c.exp {
        return OptionalAuthDecision::Proceed { identity: None, scrub_cookie: true };
    }
    OptionalAuthDecision::Proceed { identity: Some(c.sub), scrub_cookie: false }
}

/// A token the codec still accepts but whose expiry has passed is
/// classified as an expired session by the required gates — it is
/// never let through as a fresh one.
pub proof fn lemma_expired_session_classified(
    token: Seq<char>,
    private_pem: Seq<u8>,
    now: u64,
    c: crate::claims::Claims,
)
    requires
        spec_verify(token, private_pem) == Some(c),
        now >= c.exp,
    ensures
        spec_required_auth(Some(token), private_pem, Some(now)) == AuthDecisionView::Deny(
            AppErrorView::SessionExpired,
        ),
        spec_required_verified_auth(Some(token), private_pem, Some(now))
            == AuthDecisionView::Deny(AppErrorView::SessionExpired),
{
}

/// On one and the same broken cookie — undecodable, or decodable but
/// stale — the optional gate proceeds anonymously and asks for the
/// cookie to be scrubbed, while the required gate refuses the request
/// outright and asks for nothing to be cleared.
pub proof fn lemma_broken_cookie_handling(token: Seq<char>, private_pem: Seq<u8>, now: u64)
    requires
        match spec_verify(token, private_pem) {
            None => true,
            Some(c) => now >= c.exp,
        },
    ensures
        spec_optional_auth(Some(token), private_pem, Some(now))
            == (OptionalAuthDecisionView::Proceed { identity: None, scrub_cookie: true }),
        match spec_required_auth(Some(token), private_pem, Some(now)) {
            AuthDecisionView::Deny(e) => e == AppErrorView::Unauthorized("Wrong password"@) || e
                == AppErrorView::SessionExpired,
            AuthDecisionView::Proceed(_) => false,
        },
{
}

} // verus!
