//! Calls about communities.

use crate::api::{ApiCall, ListingType, NameOrId, Sensitive, SortType};
use crate::pagination::PAGE_ITEMS;
use vstd::prelude::*;

verus! {

/// The call that lists one page of communities, those with the newest
/// comments first.
pub fn list_communities(listing_type: ListingType, page: Option<i32>, auth: Option<Sensitive>) -> (call:
    ApiCall)
    ensures
        call == (ApiCall::ListCommunities {
            listing_type,
            sort: SortType::NewComments,
            page: match page {
                Some(page) => Some(page as i64),
                None => None,
            },
            limit: PAGE_ITEMS as i64,
            auth,
        }),
{
    let page = match page {
        Some(page) => Some(page as i64),
        None => None,
    };
    ApiCall::ListCommunities {
        listing_type,
        sort: SortType::NewComments,
        page,
        limit: PAGE_ITEMS as i64,
        auth,
    }
}

/// The call that fetches one community, by its name or by its number.
pub fn get_community(name_or_id: NameOrId, auth: Option<Sensitive>) -> (call: ApiCall)
    ensures
        call == match name_or_id {
            NameOrId::Name(name) => ApiCall::GetCommunity { name: Some(name), id: None, auth },
            NameOrId::Id(id) => ApiCall::GetCommunity { name: None, id: Some(id), auth },
        },
{
    match name_or_id {
        NameOrId::Name(name) => ApiCall::GetCommunity { name: Some(name), id: None, auth },
        NameOrId::Id(id) => ApiCall::GetCommunity { name: None, id: Some(id), auth },
    }
}

/// The call that subscribes the visitor to a community, or ends the
/// subscription.
pub fn follow_community(community_id: i32, follow: bool, auth: Sensitive) -> (call: ApiCall)
    ensures
        call == (ApiCall::FollowCommunity { community_id, follow, auth }),
{
    ApiCall::FollowCommunity { community_id, follow, auth }
}

} // verus!
