//! Calls about posts.

use crate::api::{ApiCall, Sensitive, SortType};
use vstd::prelude::*;

verus! {

/// The call that lists the posts of a community, those with the newest
/// comments first, `limit` posts from page `page` on.
pub fn list_posts(community_id: i32, limit: i32, page: i32, auth: Option<Sensitive>) -> (call:
    ApiCall)
    ensures
        call == (ApiCall::ListPosts {
            community_id,
            sort: SortType::NewComments,
            limit: limit as i64,
            page: page as i64,
            auth,
        }),
{
    ApiCall::ListPosts {
        community_id,
        sort: SortType::NewComments,
        limit: limit as i64,
        page: page as i64,
        auth,
    }
}

/// The call that fetches one post.
pub fn get_post(id: i32, auth: Option<Sensitive>) -> (call: ApiCall)
    ensures
        call == (ApiCall::GetPost { id, auth }),
{
    ApiCall::GetPost { id, auth }
}

/// The call that opens a thread in a community.
pub fn create_post(name: String, body: String, community_id: i32, auth: Sensitive) -> (call:
    ApiCall)
    ensures
        call == (ApiCall::CreatePost { name, body, community_id, auth }),
{
    ApiCall::CreatePost { name, body, community_id, auth }
}

/// The call that changes the title and the text of a post.
pub fn edit_post(name: String, body: String, post_id: i32, auth: Sensitive) -> (call: ApiCall)
    ensures
        call == (ApiCall::EditPost { post_id, name, body, auth }),
{
    ApiCall::EditPost { post_id, name, body, auth }
}

/// The call that reports a post to the moderators.
pub fn report_post(post_id: i32, reason: String, auth: Sensitive) -> (call: ApiCall)
    ensures
        call == (ApiCall::ReportPost { post_id, reason, auth }),
{
    ApiCall::ReportPost { post_id, reason, auth }
}

} // verus!
