//! Session cookie rendering: the exact `Set-Cookie` values that carry,
//! and that clear, the session token. The cookie is HttpOnly, scoped
//! to the API path, and lives exactly as long as the session it
//! carries; clearing sets an empty value with no lifetime, and also
//! clears the sign-in widget's own cookie.

use vstd::prelude::*;

use crate::codec::SESSION_LIFETIME;
use crate::digits::dec_chars;
use vstd::string::StringExecFns;

verus! {

/// The value that sets the session cookie: name, token, same-site
/// rule, optional `Secure`, HttpOnly, the API path, and a lifetime of
/// exactly one session.
pub open spec fn spec_auth_cookie(
    key: Seq<char>,
    jwt: Seq<char>,
    same_site_none: bool,
    secure: bool,
) -> Seq<char> {
    key + "="@ + jwt + "; "@ + (if same_site_none {
        "SameSite=None"@
    } else {
        "SameSite"@
    }) + "; "@ + (if secure {
        "Secure; "@
    } else {
        Seq::<char>::empty()
    }) + "HttpOnly; path=/api; max-age="@ + dec_chars(SESSION_LIFETIME as int)
}

/// The value that clears the session cookie: same name and attributes,
/// empty value, no lifetime.
pub open spec fn spec_removal_cookie(key: Seq<char>, same_site_none: bool, secure: bool) -> Seq<
    char,
> {
    key + "=; "@ + (if same_site_none {
        "SameSite=None"@
    } else {
        "SameSite"@
    }) + "; "@ + (if secure {
        "Secure; "@
    } else {
        Seq::<char>::empty()
    }) + "HttpOnly; path=/api; max-age=0"@
}

/// Renders the cookie value that stores a freshly issued token.
pub fn render_auth_cookie(cookie_key: &str, jwt: &str, same_site_none: bool, secure: bool) -> (r:
    String)
    ensures
        r@ == spec_auth_cookie(cookie_key@, jwt@, same_site_none, secure),
{
    let mut out = cookie_key.to_owned();
    out.append("=");
    out.append(jwt);
    out.append("; ");
    if same_site_none {
        out.append("SameSite=None");
    } else {
        out.append("SameSite");
    }
    out.append("; ");
    if secure {
        out.append("Secure; ");
    }
    out.append("HttpOnly; path=/api; max-age=");
    out.append("3600");
    proof {
        assert(dec_chars(SESSION_LIFETIME as int) =~= "3600"@) by {
            reveal_with_fuel(dec_chars, 5);
            reveal_strlit("3600");
        };
        assert(out@ =~= spec_auth_cookie(cookie_key@, jwt@, same_site_none, secure));
    }
    out
}

/// Renders the cookie value that clears the session cookie.
pub fn render_removal_cookie(cookie_key: &str, same_site_none: bool, secure: bool) -> (r: String)
    ensures
        r@ == spec_removal_cookie(cookie_key@, same_site_none, secure),
{
    let mut out = cookie_key.to_owned();
    out.append("=; ");
    if same_site_none {
        out.append("SameSite=None");
    } else {
        out.append("SameSite");
    }
    out.append("; ");
    if secure {
        out.append("Secure; ");
    }
    out.append("HttpOnly; path=/api; max-age=0");
    proof {
        assert(out@ =~= spec_removal_cookie(cookie_key@, same_site_none, secure));
    }
    out
}

/// Renders the value that clears the sign-in widget's own cookie,
/// which the widget sets for the Telegram flow.
pub fn render_widget_removal_cookie() -> (r: String)
    ensures
        r@ == "stel_ssid=; samesite=None; secure; HttpOnly; path=/; max-age=0"@,
{
    String::from_str("stel_ssid=; samesite=None; secure; HttpOnly; path=/; max-age=0")
}

} // verus!
