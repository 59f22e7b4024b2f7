//! Requests that are meant for the backend: those of other instances, which
//! ask for ActivityPub objects, and those for feeds and node metadata.

use crate::api::comment::get_comment;
use crate::api::community::get_community;
use crate::api::user::get_person;
use crate::api::{ApiCall, NameOrId, Sensitive};
use crate::text::{concat, concat_int, decimal, starts_with};
use vstd::prelude::*;

verus! {

/// The value of a request's `accept` header; empty where it has none.
pub struct AcceptHeader(pub String);

impl AcceptHeader {
    /// The header of a request, from the value that the request gives.
    pub fn from_request(accept: Option<&str>) -> (header: AcceptHeader)
        ensures
            header.0@ == match accept {
                Some(value) => value@,
                None => Seq::empty(),
            },
    {
        match accept {
            Some(value) => AcceptHeader(value.to_owned()),
            None => AcceptHeader(String::new()),
        }
    }

    /// Whether the request asks for an object rather than a page: its
    /// `accept` header begins with `application/`.
    pub open spec fn asks_for_object(&self) -> bool {
        "application/"@.is_prefix_of(self.0@)
    }

    /// Decides whether the request asks for an object rather than a page.
    pub fn wants_object(&self) -> (object: bool)
        ensures
            object == self.asks_for_object(),
    {
        starts_with(self.0.as_str(), "application/")
    }
}

/// What the backend answered to a forwarded request.
pub struct BackendResponse {
    pub text: String,
    pub content_type: String,
}

/// What is done with a request for an address that names an object.
pub enum ApubStep {
    /// Forward the request to this address of the backend.
    Forward(String),
    /// Make this call, then send the visitor to the page of what it found.
    Lookup(ApiCall),
    /// Send the visitor to this page.
    Redirect(String),
}

/// The address of the backend at `backend`, followed by `prefix` and `rest`.
pub open spec fn backend_address(backend: Seq<char>, prefix: Seq<char>, rest: Seq<char>) -> Seq<
    char,
> {
    backend + prefix + rest
}

/// The address on the backend to which a request is forwarded.
pub fn backend_url(backend: &str, prefix: &str, rest: &str) -> (url: String)
    ensures
        url@ == backend_address(backend@, prefix@, rest@),
{
    let start = concat(backend, prefix);
    concat(start.as_str(), rest)
}

/// A request for the community `name`: forwarded to the backend if it asks
/// for the object, else the community is looked up by its name.
pub fn apub_community(
    name: String,
    accept: &AcceptHeader,
    auth: Option<Sensitive>,
    backend: &str,
) -> (step: ApubStep)
    ensures
        accept.asks_for_object() ==> (step matches ApubStep::Forward(url) && url@
            == backend_address(backend@, "/c/"@, name@)),
        !accept.asks_for_object() ==> step == ApubStep::Lookup(
            ApiCall::GetCommunity { name: Some(name), id: None, auth },
        ),
{
    if accept.wants_object() {
        ApubStep::Forward(backend_url(backend, "/c/", name.as_str()))
    } else {
        ApubStep::Lookup(get_community(NameOrId::Name(name), auth))
    }
}

/// The page of the forum with number `f`, at its first page.
pub open spec fn forum_page(f: int) -> Seq<char> {
    "/view_forum?f="@ + decimal(f) + "&page=1"@
}

/// The page to which a visitor who asked for a community is sent: the
/// forum of the community with number `f`.
pub fn redirect_apub_community(f: i32) -> (page: String)
    ensures
        page@ == forum_page(f as int),
{
    let start = concat_int("/view_forum?f=", f);
    concat(start.as_str(), "&page=1")
}

/// A request for the user `name`: forwarded to the backend if it asks for
/// the object, else the user is looked up by name.
pub fn apub_user(
    name: String,
    accept: &AcceptHeader,
    auth: Option<Sensitive>,
    backend: &str,
) -> (step: ApubStep)
    ensures
        accept.asks_for_object() ==> (step matches ApubStep::Forward(url) && url@
            == backend_address(backend@, "/u/"@, name@)),
        !accept.asks_for_object() ==> step == ApubStep::Lookup(
            ApiCall::GetPersonDetails { username: Some(name), person_id: None, auth },
        ),
{
    if accept.wants_object() {
        ApubStep::Forward(backend_url(backend, "/u/", name.as_str()))
    } else {
        ApubStep::Lookup(get_person(NameOrId::Name(name), auth))
    }
}

/// The profile page of the user with number `u`.
pub open spec fn profile_page(u: int) -> Seq<char> {
    "/view_profile?u="@ + decimal(u)
}

/// The page to which a visitor who asked for a user is sent.
pub fn redirect_apub_user(u: i32) -> (page: String)
    ensures
        page@ == profile_page(u as int),
{
    concat_int("/view_profile?u=", u)
}

/// The first page of the thread of the post with number `t`.
pub open spec fn topic_page(t: int) -> Seq<char> {
    "/view_topic?t="@ + decimal(t) + "&page=1"@
}

/// The address of the first page of a thread.
pub fn redirect_apub_post(t: i32) -> (page: String)
    ensures
        page@ == topic_page(t as int),
{
    let start = concat_int("/view_topic?t=", t);
    concat(start.as_str(), "&page=1")
}

/// A request for the post with number `id`: forwarded to the backend if it
/// asks for the object, else the visitor is sent to the post's thread.
pub fn apub_post(id: i32, accept: &AcceptHeader, backend: &str) -> (step: ApubStep)
    ensures
        accept.asks_for_object() ==> (step matches ApubStep::Forward(url) && url@
            == backend_address(backend@, "/post/"@, decimal(id as int))),
        !accept.asks_for_object() ==> (step matches ApubStep::Redirect(page) && page@
            == topic_page(id as int)),
{
    if accept.wants_object() {
        let number = crate::text::int_to_string(id as i64);
        ApubStep::Forward(backend_url(backend, "/post/", number.as_str()))
    } else {
        ApubStep::Redirect(redirect_apub_post(id))
    }
}

/// A request for the comment with number `t`: forwarded to the backend if
/// it asks for the object, else the comment is fetched.
pub fn apub_comment(
    t: i32,
    accept: &AcceptHeader,
    auth: Option<Sensitive>,
    backend: &str,
) -> (step: ApubStep)
    ensures
        accept.asks_for_object() ==> (step matches ApubStep::Forward(url) && url@
            == backend_address(backend@, "/comment/"@, decimal(t as int))),
        !accept.asks_for_object() ==> step == ApubStep::Lookup(ApiCall::GetComment { id: t, auth }),
{
    if accept.wants_object() {
        let number = crate::text::int_to_string(t as i64);
        ApubStep::Forward(backend_url(backend, "/comment/", number.as_str()))
    } else {
        ApubStep::Lookup(get_comment(t, auth))
    }
}

/// The place of the comment with number `comment_id` on the first page of
/// the thread with number `t`.
pub open spec fn comment_anchor(t: int, comment_id: int) -> Seq<char> {
    topic_page(t) + "#p"@ + decimal(comment_id)
}

/// The page to which a visitor who asked for a comment is sent.
pub fn redirect_apub_comment(t: i32, comment_id: i32) -> (page: String)
    ensures
        page@ == comment_anchor(t as int, comment_id as int),
{
    let start = redirect_apub_post(t);
    let start = concat(start.as_str(), "#p");
    concat_int(start.as_str(), comment_id)
}

/// The address on the backend to which a request to an inbox is passed on.
pub fn inboxes(backend: &str, path: &str) -> (url: String)
    ensures
        url@ == backend_address(backend@, "/"@, path@),
{
    backend_url(backend, "/", path)
}

/// The address on the backend from which a feed is fetched.
pub fn feeds(backend: &str, path: &str) -> (url: String)
    ensures
        url@ == backend_address(backend@, "/feeds/"@, path@),
{
    backend_url(backend, "/feeds/", path)
}

/// The address on the backend from which a well-known document is fetched.
pub fn well_known(backend: &str, path: &str) -> (url: String)
    ensures
        url@ == backend_address(backend@, "/.well-known/"@, path@),
{
    backend_url(backend, "/.well-known/", path)
}

/// The address on the backend from which the node's metadata is fetched.
pub fn node_info(backend: &str, path: &str) -> (url: String)
    ensures
        url@ == backend_address(backend@, "/nodeinfo/"@, path@),
{
    backend_url(backend, "/nodeinfo/", path)
}

/// The address on the backend from which the site's record is fetched for
/// crawlers.
pub fn api_site(backend: &str) -> (url: String)
    ensures
        url@ == backend@ + "/api/v3/site"@,
{
    concat(backend, "/api/v3/site")
}

} // verus!
