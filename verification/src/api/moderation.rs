//! Calls by which moderators remove entries and read the log of removals.

use crate::api::{ApiCall, Sensitive};
use vstd::prelude::*;

verus! {

/// The call that removes a post.
pub fn remove_post(post_id: i32, reason: String, auth: Sensitive) -> (call: ApiCall)
    ensures
        call == (ApiCall::RemovePost { post_id, removed: true, reason, auth }),
{
    ApiCall::RemovePost { post_id, removed: true, reason, auth }
}

/// The call that removes a comment.
pub fn remove_comment(comment_id: i32, reason: String, auth: Sensitive) -> (call: ApiCall)
    ensures
        call == (ApiCall::RemoveComment { comment_id, removed: true, reason, auth }),
{
    ApiCall::RemoveComment { comment_id, removed: true, reason, auth }
}

/// The call that fetches the moderation log.
pub fn get_mod_log(auth: Option<Sensitive>) -> (call: ApiCall)
    ensures
        call == (ApiCall::GetModlog { auth }),
{
    ApiCall::GetModlog { auth }
}

} // verus!
