//! Error taxonomy of the core: scenario failures shown to the user,
//! authorization failures, expired sessions, and internal faults.
//! Each class maps to a fixed wire status code.

use vstd::prelude::*;

verus! {

/// Wire-level outcome classes carried in every response envelope.
#[allow(non_camel_case_types)]
#[derive(Clone, Copy, Debug, PartialEq, Eq, Structural)]
pub enum EScenarioStatus {
    SCENARIO_SUCCESS,
    SCENARIO_FAIL,
    UNAUTHORIZED,
    SESSION_EXPIRED,
    SYSTEM_ERROR,
}

impl EScenarioStatus {
    /// The numeric status code written on the wire for this class.
    pub fn status_code(&self) -> (code: u16)
        ensures
            code == self.spec_status_code(),
    {
        match self {
            EScenarioStatus::SCENARIO_SUCCESS => 0,
            EScenarioStatus::SCENARIO_FAIL => 400,
            EScenarioStatus::UNAUTHORIZED => 401,
            EScenarioStatus::SESSION_EXPIRED => 419,
            EScenarioStatus::SYSTEM_ERROR => 500,
        }
    }

    pub open spec fn spec_status_code(&self) -> u16 {
        match self {
            EScenarioStatus::SCENARIO_SUCCESS => 0,
            EScenarioStatus::SCENARIO_FAIL => 400,
            EScenarioStatus::UNAUTHORIZED => 401,
            EScenarioStatus::SESSION_EXPIRED => 419,
            EScenarioStatus::SYSTEM_ERROR => 500,
        }
    }

    /// Reads a status class back from its numeric code; unknown codes
    /// are rejected.
    pub fn from_status_code(code: u16) -> (r: Option<EScenarioStatus>)
        ensures
            r == EScenarioStatus::spec_from_status_code(code),
    {
        match code {
            0 => Some(EScenarioStatus::SCENARIO_SUCCESS),
            400 => Some(EScenarioStatus::SCENARIO_FAIL),
            401 => Some(EScenarioStatus::UNAUTHORIZED),
            419 => Some(EScenarioStatus::SESSION_EXPIRED),
            500 => Some(EScenarioStatus::SYSTEM_ERROR),
            _ => None,
        }
    }

    pub open spec fn spec_from_status_code(code: u16) -> Option<EScenarioStatus> {
        if code == 0 {
            Some(EScenarioStatus::SCENARIO_SUCCESS)
        } else if code == 400 {
            Some(EScenarioStatus::SCENARIO_FAIL)
        } else if code == 401 {
            Some(EScenarioStatus::UNAUTHORIZED)
        } else if code == 419 {
            Some(EScenarioStatus::SESSION_EXPIRED)
        } else if code == 500 {
            Some(EScenarioStatus::SYSTEM_ERROR)
        } else {
            None
        }
    }
}

/// A status class survives a round trip through its numeric code,
/// and distinct classes never share a code.
pub proof fn lemma_status_code_round_trip(s: EScenarioStatus, t: EScenarioStatus)
    ensures
        EScenarioStatus::spec_from_status_code(s.spec_status_code()) == Some(s),
        s.spec_status_code() == t.spec_status_code() ==> s == t,
{
}

/// Mathematical value of an [`AppError`], used by every contract that
/// speaks about which error a function returns.
pub enum AppErrorView {
    Scenario(Seq<char>, Option<Seq<char>>),
    Unauthorized(Seq<char>),
    SessionExpired,
    System(Seq<char>),
}

/// A typed failure of a core operation. The holder decides the HTTP
/// mapping from the status class; the texts are safe to log, and only
/// scenario texts are safe to show to the end user.
#[derive(Debug)]
pub enum AppError {
    /// A business-rule rejection with a user-readable message and an
    /// optional detail payload.
    ScenarioError(String, Option<String>),
    /// Missing or wrong credentials; the message deliberately does not
    /// say which check failed.
    Unauthorized(String),
    /// The presented session token was genuine but its expiry passed.
    SessionExpired,
    /// An infrastructure fault: hashing, clock or key trouble.
    SystemError(String),
}

impl View for AppError {
    type V = AppErrorView;

    open spec fn view(&self) -> AppErrorView {
        match self {
            AppError::ScenarioError(msg, payload) => AppErrorView::Scenario(
                msg@,
                match payload {
                    Some(p) => Some(p@),
                    None => None,
                },
            ),
            AppError::Unauthorized(msg) => AppErrorView::Unauthorized(msg@),
            AppError::SessionExpired => AppErrorView::SessionExpired,
            AppError::SystemError(msg) => AppErrorView::System(msg@),
        }
    }
}

impl AppError {
    pub fn unauthorized(msg: &str) -> (r: AppError)
        ensures
            r@ == AppErrorView::Unauthorized(msg@),
    {
        AppError::Unauthorized(msg.to_owned())
    }

    pub fn system_error(msg: &str) -> (r: AppError)
        ensures
            r@ == AppErrorView::System(msg@),
    {
        AppError::SystemError(msg.to_owned())
    }

    pub fn scenario_error(msg: &str, payload: Option<String>) -> (r: AppError)
        ensures
            r@ == AppErrorView::Scenario(
                msg@,
                match payload {
                    Some(p) => Some(p@),
                    None => None,
                },
            ),
    {
        AppError::ScenarioError(msg.to_owned(), payload)
    }

    /// The status class this error is reported under.
    pub fn status(&self) -> (s: EScenarioStatus)
        ensures
            s == self.spec_status(),
    {
        match self {
            AppError::ScenarioError(_, _) => EScenarioStatus::SCENARIO_FAIL,
            AppError::Unauthorized(_) => EScenarioStatus::UNAUTHORIZED,
            AppError::SessionExpired => EScenarioStatus::SESSION_EXPIRED,
            AppError::SystemError(_) => EScenarioStatus::SYSTEM_ERROR,
        }
    }

    pub open spec fn spec_status(&self) -> EScenarioStatus {
        match self {
            AppError::ScenarioError(_, _) => EScenarioStatus::SCENARIO_FAIL,
            AppError::Unauthorized(_) => EScenarioStatus::UNAUTHORIZED,
            AppError::SessionExpired => EScenarioStatus::SESSION_EXPIRED,
            AppError::SystemError(_) => EScenarioStatus::SYSTEM_ERROR,
        }
    }
}

} // verus!
