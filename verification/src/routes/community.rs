//! Reading a forum, and reporting an entry.

use crate::api::comment::report_comment;
use crate::api::community::{follow_community, get_community};
use crate::api::post::{list_posts, report_post};
use crate::api::{duplicate_auth, ApiCall, NameOrId, Sensitive, SortType};
use crate::pagination::{pagination_of, strip_fits, PageLimit, Pagination, PAGE_ITEMS};
use crate::routes::post::page_or_first;
use crate::text::{concat, concat_int, decimal, str_eq};
use vstd::prelude::*;

verus! {

/// Whether `action` asks to subscribe (`Some(true)`), to end the
/// subscription (`Some(false)`), or for neither.
pub open spec fn subscription_asked(action: Option<Seq<char>>) -> Option<bool> {
    match action {
        Some(word) => if word == "subscribe"@ {
            Some(true)
        } else if word == "unsubscribe"@ {
            Some(false)
        } else {
            None
        },
        None => None,
    }
}

/// The call that a request for a forum makes before anything else: the one
/// that subscribes the visitor to the community with number `f`, or ends
/// the subscription, where the request asks for that; a visitor who asks
/// is logged in.
pub fn subscription(f: i32, action: Option<&str>, auth: &Option<Sensitive>) -> (call: Option<
    ApiCall,
>)
    requires
        subscription_asked(
            match action {
                Some(word) => Some(word@),
                None => None,
            },
        ) is Some ==> auth is Some,
    ensures
        call == match subscription_asked(
            match action {
                Some(word) => Some(word@),
                None => None,
            },
        ) {
            Some(follow) => Some(
                ApiCall::FollowCommunity { community_id: f, follow, auth: auth->0 },
            ),
            None => None,
        },
{
    let follow = match action {
        Some(word) => {
            if str_eq(word, "subscribe") {
                Some(true)
            } else if str_eq(word, "unsubscribe") {
                Some(false)
            } else {
                None
            }
        },
        None => None,
    };
    match follow {
        Some(follow) => {
            let auth = match auth {
                Some(auth) => auth.duplicate(),
                None => vstd::pervasive::unreached(),
            };
            Some(follow_community(f, follow, auth))
        },
        None => None,
    }
}

/// The calls that fetch what a forum's page shows: one page of the
/// community's posts, and the community itself.
pub fn view_forum(f: i32, page: Option<i32>, auth: Option<Sensitive>) -> (calls: (ApiCall, ApiCall))
    ensures
        calls.0 == (ApiCall::ListPosts {
            community_id: f,
            sort: SortType::NewComments,
            limit: PAGE_ITEMS as i64,
            page: page_or_first(page) as i64,
            auth,
        }),
        calls.1 == (ApiCall::GetCommunity { name: None, id: Some(f), auth }),
{
    let page = match page {
        Some(page) => page,
        None => 1,
    };
    let posts = list_posts(f, PAGE_ITEMS, page, duplicate_auth(&auth));
    let community = get_community(NameOrId::Id(f), auth);
    (posts, community)
}

/// The link of the forum with number `f`, to which the page is appended.
pub open spec fn forum_base_link(f: int) -> Seq<char> {
    "/viewforum?f="@ + decimal(f) + "&"@
}

/// The strip that leads to the other pages of a forum, of which the
/// current page holds `posts` posts; its last page is not known.
pub fn forum_pagination(f: i32, page: Option<i32>, posts: usize) -> (pagination: Pagination)
    requires
        strip_fits(page_or_first(page), PageLimit::Unknown(posts)),
    ensures
        pagination@ == pagination_of(
            page_or_first(page),
            PageLimit::Unknown(posts),
            forum_base_link(f as int),
        ),
{
    let link = concat_int("/viewforum?f=", f);
    let link = concat(link.as_str(), "&");
    let current = match page {
        Some(page) => page,
        None => 1,
    };
    Pagination::new(current, PageLimit::Unknown(posts), link)
}

/// The address to which the report form is sent: it names the thread that
/// is reported, or else the reply.
pub open spec fn report_action(thread: Option<i32>, reply: Option<i32>) -> Seq<char> {
    match thread {
        Some(id) => "/do_report?thread="@ + decimal(id as int),
        None => "/do_report?reply="@ + decimal(reply->0 as int),
    }
}

/// Builds the address to which the report form is sent. The request names
/// a thread or a reply.
pub fn report(thread: Option<i32>, reply: Option<i32>) -> (action: String)
    requires
        thread is Some || reply is Some,
    ensures
        action@ == report_action(thread, reply),
{
    match thread {
        Some(id) => concat_int("/do_report?thread=", id),
        None => match reply {
            Some(id) => concat_int("/do_report?reply=", id),
            None => vstd::pervasive::unreached(),
        },
    }
}

/// What the report form sends.
pub struct ReportForm {
    pub report_text: String,
}

/// The call that reports the thread that the request names, or else the
/// reply, with the text of the form as the reason. The request names one
/// of the two.
pub fn do_report(thread: Option<i32>, reply: Option<i32>, form: ReportForm, auth: Sensitive) -> (call:
    ApiCall)
    requires
        thread is Some || reply is Some,
    ensures
        call == match thread {
            Some(id) => ApiCall::ReportPost { post_id: id, reason: form.report_text, auth },
            None => ApiCall::ReportComment {
                comment_id: reply->0,
                reason: form.report_text,
                auth,
            },
        },
{
    match thread {
        Some(id) => report_post(id, form.report_text, auth),
        None => match reply {
            Some(id) => report_comment(id, form.report_text, auth),
            None => vstd::pervasive::unreached(),
        },
    }
}

} // verus!
