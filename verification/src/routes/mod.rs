//! What each page of the front-end decides: which calls to make, where to
//! send the visitor, and what to show.

pub mod backend_endpoints;
pub mod comment;
pub mod community;
pub mod moderation;
pub mod post;
pub mod private_message;
pub mod site;
pub mod user;

use crate::api::Sensitive;
use vstd::prelude::*;

verus! {

/// The session token of a request: the value of its `jwt` cookie, if it
/// has one.
pub fn auth(jwt_cookie: Option<String>) -> (token: Option<Sensitive>)
    ensures
        match jwt_cookie {
            Some(value) => token matches Some(secret) && secret@ == value@,
            None => token is None,
        },
{
    match jwt_cookie {
        Some(value) => Some(Sensitive::new(value)),
        None => None,
    }
}

/// To which requests a browser sends a cookie along.
#[derive(Clone, Copy, Debug, PartialEq, Eq, Structural)]
pub enum SameSite {
    Strict,
    Lax,
}

/// The cookie that holds a visitor's session.
pub struct JwtCookie {
    pub name: String,
    pub value: Sensitive,
    pub http_only: bool,
    pub secure: bool,
    pub same_site: SameSite,
}

/// The cookie that keeps the session `jwt`: named `jwt`, hidden from
/// scripts, sent over secure connections only, and only with requests that
/// come from the site itself.
pub fn build_jwt_cookie(jwt: Sensitive) -> (cookie: JwtCookie)
    ensures
        cookie.name@ == "jwt"@,
        cookie.value == jwt,
        cookie.http_only,
        cookie.secure,
        cookie.same_site == SameSite::Strict,
{
    JwtCookie {
        name: "jwt".to_owned(),
        value: jwt,
        http_only: true,
        secure: true,
        same_site: SameSite::Strict,
    }
}

} // verus!
