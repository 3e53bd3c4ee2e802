//! Validation of the sign-up, sign-in and profile-update submissions.
//! The shape an email address must have — one `@` with something
//! before it, and a dot with something on both sides somewhere after
//! it, no whitespace anywhere — is stated as a predicate and the
//! checker is proved against it.

use vstd::prelude::*;

use crate::errors::{AppError, AppErrorView};
use vstd::string::{StrSliceExecFns, StringExecFns};

verus! {

/// The whitespace characters (the Unicode `White_Space` set).
pub open spec fn is_ws_char(c: char) -> bool {
    let u = c as u32;
    (0x9 <= u <= 0xD) || u == 0x20 || u == 0x85 || u == 0xA0 || u == 0x1680 || (0x2000 <= u
        <= 0x200A) || u == 0x2028 || u == 0x2029 || u == 0x202F || u == 0x205F || u == 0x3000
}

fn is_ws(c: char) -> (r: bool)
    ensures
        r == is_ws_char(c),
{
    let u = c as u32;
    (0x9 <= u && u <= 0xD) || u == 0x20 || u == 0x85 || u == 0xA0 || u == 0x1680 || (0x2000 <= u
        && u <= 0x200A) || u == 0x2028 || u == 0x2029 || u == 0x202F || u == 0x205F || u == 0x3000
}

/// A way to read `s` as an address: the `@` stands at `i` with at
/// least one character before it, a dot stands at `j` with at least
/// one character between it and the `@` and at least one after it,
/// and apart from the `@` itself no character is whitespace or a
/// second `@`.
pub open spec fn email_split_at(s: Seq<char>, i: int, j: int) -> bool {
    &&& 1 <= i
    &&& i + 2 <= j
    &&& j + 2 <= s.len()
    &&& s[i] == '@'
    &&& s[j] == '.'
    &&& forall|k: int| 0 <= k < s.len() && k != i ==> !is_ws_char(#[trigger] s[k]) && s[k] != '@'
}

/// Whether `s` has the shape of an email address.
pub open spec fn spec_email_ok(s: Seq<char>) -> bool {
    exists|i: int, j: int| email_split_at(s, i, j)
}

/// Decides whether `s` has the shape of an email address.
pub fn check_email(s: &str) -> (r: bool)
    ensures
        r == spec_email_ok(s@),
{
    let n = s.unicode_len();
    if n < 5 {
        proof {
            assert forall|i: int, j: int| !email_split_at(s@, i, j) by {};
        }
        return false;
    }
    let mut at_pos: usize = 0;
    let mut found_at = false;
    let mut i: usize = 0;
    while i < n
        invariant
            n == s@.len(),
            0 <= i <= n,
            forall|k: int| 0 <= k < i ==> !is_ws_char(#[trigger] s@[k]),
            found_at ==> at_pos < i && s@[at_pos as int] == '@',
            forall|k: int|
                0 <= k < i && (!found_at || k != at_pos) ==> #[trigger] s@[k] != '@',
        decreases n - i,
    {
        let c = s.get_char(i);
        if is_ws(c) {
            proof {
                assert forall|i2: int, j2: int| !email_split_at(s@, i2, j2) by {
                    if email_split_at(s@, i2, j2) {
                        if i2 == i {
                            assert(s@[i as int] == '@');
                        } else {
                            assert(!is_ws_char(s@[i as int]));
                        }
                    }
                };
            }
            return false;
        }
        if c == '@' {
            if found_at {
                proof {
                    assert forall|i2: int, j2: int| !email_split_at(s@, i2, j2) by {
                        if email_split_at(s@, i2, j2) {
                            if i2 == at_pos {
                                assert(s@[i as int] != '@');
                            } else {
                                assert(s@[at_pos as int] != '@');
                            }
                        }
                    };
                }
                return false;
            }
            found_at = true;
            at_pos = i;
        }
        i = i + 1;
    }
    if !found_at {
        proof {
            assert forall|i2: int, j2: int| !email_split_at(s@, i2, j2) by {};
        }
        return false;
    }
    if at_pos == 0 {
        proof {
            assert forall|i2: int, j2: int| !email_split_at(s@, i2, j2) by {
                if email_split_at(s@, i2, j2) {
                    if i2 != at_pos {
                        assert(s@[at_pos as int] != '@');
                    }
                }
            };
        }
        return false;
    }
    if at_pos > n - 4 {
        proof {
            assert forall|i2: int, j2: int| !email_split_at(s@, i2, j2) by {
                if email_split_at(s@, i2, j2) {
                    if i2 != at_pos {
                        assert(s@[at_pos as int] != '@');
                    }
                }
            };
        }
        return false;
    }
    let mut j: usize = at_pos + 2;
    while j <= n - 2
        invariant
            n == s@.len(),
            n >= 5,
            1 <= at_pos,
            at_pos + 4 <= n,
            at_pos + 2 <= j <= n - 1,
            s@[at_pos as int] == '@',
            forall|k: int| 0 <= k < n ==> !is_ws_char(#[trigger] s@[k]),
            forall|k: int| 0 <= k < n && k != at_pos ==> #[trigger] s@[k] != '@',
            forall|k: int| at_pos + 2 <= k < j ==> #[trigger] s@[k] != '.',
        decreases n - j,
    {
        let c = s.get_char(j);
        if c == '.' {
            proof {
                assert(email_split_at(s@, at_pos as int, j as int));
            }
            return true;
        }
        j = j + 1;
    }
    proof {
        assert forall|i2: int, j2: int| !email_split_at(s@, i2, j2) by {
            if email_split_at(s@, i2, j2) {
                if i2 != at_pos {
                    assert(s@[at_pos as int] != '@');
                }
                assert(s@[j2] != '.');
            }
        };
    }
    false
}

/// A sign-up submission that passed validation.
pub struct RegistrationEmailDto {
    pub nickname: String,
    pub email: String,
    pub password: String,
    pub timezone_offset: Option<i16>,
}

/// Validates a sign-up submission: the nickname and the password must
/// be nonempty, the email must have the address shape, and a timezone
/// offset, when given, must lie within the world's range.
pub fn validate_registration(
    nickname: String,
    email: String,
    password: String,
    timezone_offset: Option<i16>,
) -> (r: Result<RegistrationEmailDto, AppError>)
    ensures
        match r {
            Ok(d) => {
                &&& d.nickname@ == nickname@ && d.email@ == email@ && d.password@ == password@
                &&& d.timezone_offset == timezone_offset
                &&& nickname@.len() > 0
                &&& spec_email_ok(email@)
                &&& password@.len() > 0
                &&& match timezone_offset {
                    Some(tz) => -12 <= tz <= 12,
                    None => true,
                }
            },
            Err(e) => match e@ {
                AppErrorView::Scenario(m, p) => p is None && if nickname@.len() == 0 {
                    m == "Invalid nickname"@
                } else if !spec_email_ok(email@) {
                    m == "Invalid email address"@
                } else if password@.len() == 0 {
                    m == "Invalid password"@
                } else {
                    m == "Invalid timezone offset"@ && match timezone_offset {
                        Some(tz) => !(-12 <= tz <= 12),
                        None => false,
                    }
                },
                _ => false,
            },
        },
{
    if nickname.as_str().is_empty() {
        return Err(AppError::scenario_error("Invalid nickname", None));
    }
    if !check_email(email.as_str()) {
        return Err(AppError::scenario_error("Invalid email address", None));
    }
    if password.as_str().is_empty() {
        return Err(AppError::scenario_error("Invalid password", None));
    }
    if let Some(tz) = timezone_offset {
        if tz < -12 || tz > 12 {
            return Err(AppError::scenario_error("Invalid timezone offset", None));
        }
    }
    Ok(RegistrationEmailDto { nickname, email, password, timezone_offset })
}

/// A sign-in submission that passed validation.
pub struct SignInDto {
    pub email: String,
    pub password: String,
}

/// Validates a sign-in submission: the email must have the address
/// shape and the password must be nonempty.
pub fn validate_sign_in(email: String, password: String) -> (r: Result<SignInDto, AppError>)
    ensures
        match r {
            Ok(d) => {
                &&& d.email@ == email@ && d.password@ == password@
                &&& spec_email_ok(email@)
                &&& password@.len() > 0
            },
            Err(e) => match e@ {
                AppErrorView::Scenario(m, p) => p is None && if !spec_email_ok(email@) {
                    m == "Invalid email address"@
                } else {
                    m == "Invalid password"@ && password@.len() == 0
                },
                _ => false,
            },
        },
{
    if !check_email(email.as_str()) {
        return Err(AppError::scenario_error("Invalid email address", None));
    }
    if password.as_str().is_empty() {
        return Err(AppError::scenario_error("Invalid password", None));
    }
    Ok(SignInDto { email, password })
}

/// A profile update after normalization.
pub struct UpdateProfileDto {
    pub nickname: String,
    pub about_me: Option<String>,
    pub city: Option<String>,
    pub own_tz: Option<i16>,
    pub tz_variant: Option<String>,
}

/// How the timezone fields come out of normalization, as a function of
/// how they came in: an `own` variant insists on a personal offset
/// within range; the `city` and `device` variants drop any personal
/// offset; anything else drops both fields.
pub open spec fn spec_tz_outcome(own_tz: Option<i16>, tz_variant: Option<Seq<char>>) -> Result<
    (Option<i16>, Option<Seq<char>>),
    Seq<char>,
> {
    match tz_variant {
        Some(v) => if v == "own"@ {
            match own_tz {
                Some(tz) => if -11 <= tz <= 12 {
                    Ok((own_tz, tz_variant))
                } else {
                    Err("Invalid personal timezone offset"@)
                },
                None => Err("No personal timezone offset given"@),
            }
        } else if v == "city"@ || v == "device"@ {
            Ok((None, tz_variant))
        } else {
            Ok((None, None))
        },
        None => Ok((None, None)),
    }
}

/// Normalizes a profile update.
pub fn normalize_profile_update(
    nickname: String,
    about_me: Option<String>,
    city: Option<String>,
    own_tz: Option<i16>,
    tz_variant: Option<String>,
) -> (r: Result<UpdateProfileDto, AppError>)
    ensures
        ({
            let tzv = match tz_variant {
                Some(ref v) => Some(v@),
                None => None,
            };
            match r {
                Ok(d) => {
                    &&& d.nickname@ == nickname@
                    &&& d.about_me == about_me
                    &&& d.city == city
                    &&& ({
                        let dv = match d.tz_variant {
                            Some(ref v) => Some(v@),
                            None => None,
                        };
                        spec_tz_outcome(own_tz, tzv) == Ok::<_, Seq<char>>((d.own_tz, dv))
                    })
                },
                Err(e) => match e@ {
                    AppErrorView::Scenario(m, p) => p is None && spec_tz_outcome(own_tz, tzv)
                        == Err::<(Option<i16>, Option<Seq<char>>), _>(m),
                    _ => false,
                },
            }
        }),
{
    let own = String::from_str("own");
    let city_variant = String::from_str("city");
    let device = String::from_str("device");
    match tz_variant {
        Some(v) => {
            if v == own {
                match own_tz {
                    Some(tz) => {
                        if tz < -11 || tz > 12 {
                            return Err(
                                AppError::scenario_error("Invalid personal timezone offset", None),
                            );
                        }
                        Ok(
                            UpdateProfileDto {
                                nickname,
                                about_me,
                                city,
                                own_tz: Some(tz),
                                tz_variant: Some(v),
                            },
                        )
                    },
                    None => Err(
                        AppError::scenario_error("No personal timezone offset given", None),
                    ),
                }
            } else if v == city_variant || v == device {
                Ok(
                    UpdateProfileDto {
                        nickname,
                        about_me,
                        city,
                        own_tz: None,
                        tz_variant: Some(v),
                    },
                )
            } else {
                Ok(UpdateProfileDto { nickname, about_me, city, own_tz: None, tz_variant: None })
            }
        },
        None => Ok(UpdateProfileDto { nickname, about_me, city, own_tz: None, tz_variant: None }),
    }
}

} // verus!
