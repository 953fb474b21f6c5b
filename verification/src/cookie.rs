//! The cookie that carries a session token.

use crate::text::decimal;
use vstd::prelude::*;

verus! {

/// To which requests from other sites a browser attaches a cookie.
#[derive(Debug, Clone, Copy, PartialEq, Eq, Structural)]
pub enum SameSitePolicy {
    Strict,
    Lax,
    Unrestricted,
}

impl SameSitePolicy {
    /// The word that stands for the policy in a `Set-Cookie` header.
    pub open spec fn word(self) -> Seq<char> {
        match self {
            SameSitePolicy::Strict => "Strict"@,
            SameSitePolicy::Lax => "Lax"@,
            SameSitePolicy::Unrestricted => "None"@,
        }
    }
}

/// The attributes of a cookie that the service sets.
#[derive(Debug, Clone, PartialEq, Eq)]
pub struct CookieSpec {
    pub name: String,
    pub value: String,
    pub path: String,
    pub max_age_secs: i64,
    pub same_site: SameSitePolicy,
    pub http_only: bool,
}

/// What a [`CookieSpec`] holds.
pub struct CookieSpecView {
    pub name: Seq<char>,
    pub value: Seq<char>,
    pub path: Seq<char>,
    pub max_age_secs: i64,
    pub same_site: SameSitePolicy,
    pub http_only: bool,
}

impl View for CookieSpec {
    type V = CookieSpecView;

    open spec fn view(&self) -> CookieSpecView {
        CookieSpecView {
            name: self.name@,
            value: self.value@,
            path: self.path@,
            max_age_secs: self.max_age_secs,
            same_site: self.same_site,
            http_only: self.http_only,
        }
    }
}

/// The value of the `Set-Cookie` header for a cookie: the pair of name and
/// value, then the attributes in a fixed order. A cookie that any site may
/// send is marked `Secure` as well.
pub open spec fn header_text(cookie: CookieSpecView) -> Seq<char> {
    cookie.name + "="@ + cookie.value + (if cookie.http_only {
        "; HttpOnly"@
    } else {
        Seq::<char>::empty()
    }) + "; SameSite="@ + cookie.same_site.word() + (if cookie.same_site
        == SameSitePolicy::Unrestricted {
        "; Secure"@
    } else {
        Seq::<char>::empty()
    }) + "; Path="@ + cookie.path + "; Max-Age="@ + decimal(cookie.max_age_secs as int)
}

/// Builds the cookie with `axum_extra`'s `Cookie::build`, with the age as a
/// `time::Duration` of whole seconds, and formats it with its `Display`,
/// which writes `name=value` and then, each after `"; "`, `HttpOnly` where
/// it is set, `SameSite=` and the policy, `Secure` where the policy is
/// `None` and `secure` was left unset, `Path=` and the path, and `Max-Age=`
/// and the whole seconds; nothing is percent-encoded.
#[verifier::external_body]
fn format_cookie(cookie: &CookieSpec) -> (text: String)
    ensures
        text@ == header_text(cookie@),
{
    let same_site = match cookie.same_site {
        SameSitePolicy::Strict => axum_extra::extract::cookie::SameSite::Strict,
        SameSitePolicy::Lax => axum_extra::extract::cookie::SameSite::Lax,
        SameSitePolicy::Unrestricted => axum_extra::extract::cookie::SameSite::None,
    };
    axum_extra::extract::cookie::Cookie::build((cookie.name.as_str(), cookie.value.as_str()))
        .path(cookie.path.as_str())
        .max_age(time::Duration::seconds(cookie.max_age_secs))
        .same_site(same_site)
        .http_only(cookie.http_only)
        .to_string()
}

impl CookieSpec {
    /// The value of the `Set-Cookie` header that sets this cookie.
    pub fn to_header(&self) -> (text: String)
        ensures
            text@ == header_text(self@),
    {
        format_cookie(self)
    }
}

} // verus!
