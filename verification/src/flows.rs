//! The decision cores of the account and application workflows: what
//! a sign-in answers given what the repository found, how a Telegram
//! account picks its nickname, how an email-verification attempt is
//! classified, and the gates that admit or refuse an event
//! application step. The repository reads and writes around these
//! decisions are the HTTP layer's business.

use vstd::prelude::*;

use crate::claims::{Claims, UserId};
use crate::codec::{is_key_pair, spec_verify, SessionKeys, SESSION_LIFETIME};
use crate::digits::{dec_chars_i64, i64_to_string};
use crate::errors::{AppError, AppErrorView};
use crate::hasher::{spec_verify_password, verify_password};
use vstd::string::StringExecFns;

verus! {

/// What the repository hands over for a sign-in attempt.
pub struct UserForSignIn {
    pub id: UserId,
    /// The stored credential suffix; an account that signs in another
    /// way has none.
    pub pw_hash: Option<String>,
    pub verified: bool,
}

/// The password sign-in decision, given what the repository found. An
/// unknown email, a password-less account and a wrong password are all
/// one indistinguishable refusal; a correct password yields a fresh
/// session token for the account. The caller waits out the timing
/// guard around this check, on every branch alike.
pub fn sign_in_email_core(
    keys: &SessionKeys,
    user: Option<UserForSignIn>,
    password: &str,
    now: u64,
) -> (r: Result<String, AppError>)
    ensures
        ({
            let credential_ok = match user {
                Some(ref u) => match u.pw_hash {
                    Some(ref h) => spec_verify_password(password@, h@) is None,
                    None => false,
                },
                None => false,
            };
            &&& !credential_ok ==> (r matches Err(e) && e@ == AppErrorView::Unauthorized(
                "Wrong password"@,
            ))
            &&& credential_ok ==> match r {
                Ok(token) => now + SESSION_LIFETIME <= u64::MAX && (is_key_pair(
                    keys.private_pem@,
                    keys.public_pem@,
                ) ==> spec_verify(token@, keys.private_pem@) == Some(
                    Claims {
                        sub: user->Some_0.id,
                        exp: (now + SESSION_LIFETIME) as u64,
                        verified: user->Some_0.verified,
                    },
                )),
                Err(e) => e@ matches AppErrorView::System(_),
            }
        }),
{
    let u = match user {
        Some(u) => u,
        None => {
            return Err(AppError::unauthorized("Wrong password"));
        },
    };
    let hash = match u.pw_hash {
        Some(h) => h,
        None => {
            return Err(AppError::unauthorized("Wrong password"));
        },
    };
    if verify_password(password, hash).is_err() {
        return Err(AppError::unauthorized("Wrong password"));
    }
    keys.issue(u.id, u.verified, now)
}

/// The nickname a Telegram account signs up under: the username if one
/// was submitted, else the first name, else `user_` and the numeric
/// Telegram id.
pub open spec fn spec_tg_nickname(
    username: Option<Option<Seq<char>>>,
    first_name: Option<Option<Seq<char>>>,
    id: int,
) -> Seq<char> {
    match username {
        Some(Some(u)) => u,
        _ => match first_name {
            Some(Some(f)) => f,
            _ => "user_"@ + dec_chars_i64(id),
        },
    }
}

/// Picks the nickname for a fresh Telegram registration.
pub fn tg_nickname(
    username: Option<Option<String>>,
    first_name: Option<Option<String>>,
    id: i64,
) -> (r: String)
    ensures
        r@ == spec_tg_nickname(
            match username {
                Some(Some(ref u)) => Some(Some(u@)),
                Some(None) => Some(None),
                None => None,
            },
            match first_name {
                Some(Some(ref f)) => Some(Some(f@)),
                Some(None) => Some(None),
                None => None,
            },
            id as int,
        ),
{
    match username {
        Some(Some(u)) => u,
        _ => match first_name {
            Some(Some(f)) => f,
            _ => {
                let mut r = String::from_str("user_");
                let digits = i64_to_string(id);
                r.append(digits.as_str());
                r
            },
        },
    }
}

/// Whether a verification channel is one this service confirms.
pub fn verification_channel_supported(channel: &str) -> (r: bool)
    ensures
        r == (channel@ == "email"@),
{
    let email = String::from_str("email");
    let c = channel.to_owned();
    c == email
}

/// How an email-confirmation attempt came out, given what the
/// repository found for the submitted code: no such code, a code past
/// its lifetime, an address confirmed long ago, or a fresh
/// confirmation.
pub fn email_verification_outcome(row: Option<(bool, bool)>) -> (r: Result<(), AppError>)
    ensures
        match row {
            None => r matches Err(e) && e@ == AppErrorView::Scenario(
                "Invalid verification link"@,
                None,
            ),
            Some((expired, was_updated)) => if expired {
                r matches Err(e) && e@ == AppErrorView::Scenario(
                    "Verification link expired"@,
                    None,
                )
            } else if !was_updated {
                r matches Err(e) && e@ == AppErrorView::Scenario(
                    "Email was already verified"@,
                    None,
                )
            } else {
                r is Ok
            },
        },
{
    let (expired, was_updated) = match row {
        Some(row) => row,
        None => {
            return Err(AppError::scenario_error("Invalid verification link", None));
        },
    };
    if expired {
        return Err(AppError::scenario_error("Verification link expired", None));
    }
    if !was_updated {
        return Err(AppError::scenario_error("Email was already verified", None));
    }
    Ok(())
}

/// What the repository hands over about an application a master is
/// about to approve or reject. The event date is in seconds of the
/// epoch.
pub struct AppForApproval {
    /// `None`: still undecided; `Some(true)`: approved; `Some(false)`:
    /// rejected.
    pub approval: Option<bool>,
    pub event_cancelled: bool,
    pub event_date: i64,
}

/// Why an approval step stops, or that it may go on.
#[derive(Debug, PartialEq, Eq, Structural)]
pub enum ApprovalGate {
    /// No such application under this master.
    Missing,
    /// The application already has this very decision.
    AlreadyDecided,
    /// The event was cancelled.
    Cancelled,
    /// The event already took place.
    Over,
    /// The decision may be recorded.
    Proceed,
}

/// Whether a master may approve this application now: it must exist,
/// not be approved yet, and its event must still be ahead and not
/// cancelled.
pub fn approve_gate(app: Option<AppForApproval>, now: i64) -> (r: ApprovalGate)
    ensures
        r == match app {
            None => ApprovalGate::Missing,
            Some(a) => if a.approval == Some(true) {
                ApprovalGate::AlreadyDecided
            } else if a.event_cancelled {
                ApprovalGate::Cancelled
            } else if a.event_date < now {
                ApprovalGate::Over
            } else {
                ApprovalGate::Proceed
            },
        },
{
    let a = match app {
        Some(a) => a,
        None => {
            return ApprovalGate::Missing;
        },
    };
    let already = match a.approval {
        Some(d) => d,
        None => false,
    };
    if already {
        return ApprovalGate::AlreadyDecided;
    }
    if a.event_cancelled {
        return ApprovalGate::Cancelled;
    }
    if a.event_date < now {
        return ApprovalGate::Over;
    }
    ApprovalGate::Proceed
}

/// Whether a master may reject this application now: as for approval,
/// but what blocks it is an earlier rejection.
pub fn reject_gate(app: Option<AppForApproval>, now: i64) -> (r: ApprovalGate)
    ensures
        r == match app {
            None => ApprovalGate::Missing,
            Some(a) => if a.approval == Some(false) {
                ApprovalGate::AlreadyDecided
            } else if a.event_cancelled {
                ApprovalGate::Cancelled
            } else if a.event_date < now {
                ApprovalGate::Over
            } else {
                ApprovalGate::Proceed
            },
        },
{
    let a = match app {
        Some(a) => a,
        None => {
            return ApprovalGate::Missing;
        },
    };
    let rejected = match a.approval {
        Some(d) => !d,
        None => false,
    };
    if rejected {
        return ApprovalGate::AlreadyDecided;
    }
    if a.event_cancelled {
        return ApprovalGate::Cancelled;
    }
    if a.event_date < now {
        return ApprovalGate::Over;
    }
    ApprovalGate::Proceed
}

/// What the repository hands over about an event a player applies to.
pub struct EventForApplying {
    pub master_id: UserId,
    pub you_are_master: bool,
    pub already_applied: bool,
    pub cancelled: bool,
    pub can_auto_approve: bool,
}

/// Why an application stops, or that it may be filed.
#[derive(Debug, PartialEq, Eq, Structural)]
pub enum ApplyGate {
    /// No such event.
    Missing,
    /// The applicant runs this event.
    YouAreMaster,
    /// The applicant already applied.
    AlreadyApplied,
    /// The event was cancelled.
    Cancelled,
    /// The application may be filed, auto-approved or not.
    Proceed { auto_approve: bool },
}

/// Whether a player may apply to this event: it must exist, not be the
/// player's own, not be applied to twice, and not be cancelled.
pub fn apply_gate(event: Option<&EventForApplying>) -> (r: ApplyGate)
    ensures
        r == match event {
            None => ApplyGate::Missing,
            Some(e) => if e.you_are_master {
                ApplyGate::YouAreMaster
            } else if e.already_applied {
                ApplyGate::AlreadyApplied
            } else if e.cancelled {
                ApplyGate::Cancelled
            } else {
                ApplyGate::Proceed { auto_approve: e.can_auto_approve }
            },
        },
{
    let e = match event {
        Some(e) => e,
        None => {
            return ApplyGate::Missing;
        },
    };
    if e.you_are_master {
        return ApplyGate::YouAreMaster;
    }
    if e.already_applied {
        return ApplyGate::AlreadyApplied;
    }
    if e.cancelled {
        return ApplyGate::Cancelled;
    }
    ApplyGate::Proceed { auto_approve: e.can_auto_approve }
}

/// Why cancelling or reopening an event stops, or that it may go on:
/// the event must exist and the caller must be its master.
#[derive(Debug, PartialEq, Eq, Structural)]
pub enum MasterGate {
    Missing,
    NotMaster,
    Proceed,
}

/// Whether the caller may cancel or reopen this event.
pub fn master_gate(event_found: bool, you_are_master: bool) -> (r: MasterGate)
    ensures
        r == if !event_found {
            MasterGate::Missing
        } else if !you_are_master {
            MasterGate::NotMaster
        } else {
            MasterGate::Proceed
        },
{
    if !event_found {
        return MasterGate::Missing;
    }
    if !you_are_master {
        return MasterGate::NotMaster;
    }
    MasterGate::Proceed
}

} // verus!
