//! Calls about the site as a whole, and the search across it.

use crate::api::{duplicate_auth, ApiCall, Sensitive};
use crate::error::ApiError;
use crate::model::{ResolveObjectResponse, SearchResponse};
use vstd::prelude::*;

verus! {

/// The call that sets up the site.
pub fn create_site(name: String, description: Option<String>, auth: Sensitive) -> (call: ApiCall)
    ensures
        call == (ApiCall::CreateSite { name, description, auth }),
{
    ApiCall::CreateSite { name, description, auth }
}

/// The call that fetches the site's record, and the visitor's where `auth`
/// is a valid session.
pub fn get_site(auth: Option<Sensitive>) -> (call: ApiCall)
    ensures
        call == (ApiCall::GetSite { auth }),
{
    ApiCall::GetSite { auth }
}

/// The call that asks the backend what the address `query` stands for.
pub fn resolve_object(query: String, auth: Option<Sensitive>) -> (call: ApiCall)
    ensures
        call == (ApiCall::ResolveObject { q: query, auth }),
{
    ApiCall::ResolveObject { q: query, auth }
}

/// The two calls of a search, made side by side: the search itself, and the
/// attempt to resolve the query as an address.
pub fn search_calls(query: String, auth: Option<Sensitive>) -> (calls: (ApiCall, ApiCall))
    ensures
        calls.0 == (ApiCall::Search { q: query, auth }),
        calls.1 == (ApiCall::ResolveObject { q: query, auth }),
{
    let lookup = resolve_object(query.clone(), duplicate_auth(&auth));
    (ApiCall::Search { q: query, auth }, lookup)
}

/// The sequence that holds `item`, or nothing.
pub open spec fn found<T>(item: Option<T>) -> Seq<T> {
    match item {
        Some(item) => seq![item],
        None => Seq::empty(),
    }
}

fn push_found<T>(items: &mut Vec<T>, item: Option<T>)
    ensures
        final(items)@ == old(items)@ + found(item),
{
    match item {
        Some(item) => {
            items.push(item);
            assert(items@ =~= old(items)@ + found(Some(item)));
        },
        None => {
            assert(items@ =~= old(items)@ + found(None::<T>));
        },
    }
}

/// Joins the answers of the two calls of a search. A failed search fails the
/// whole. A failed resolution is passed over: most queries are no address.
/// What the query resolved to is added at the end of the list of its kind.
pub fn search(
    found_by_search: Result<SearchResponse, ApiError>,
    resolved: Result<ResolveObjectResponse, ApiError>,
) -> (result: Result<SearchResponse, ApiError>)
    ensures
        match found_by_search {
            Err(error) => result == Err::<SearchResponse, ApiError>(error),
            Ok(listed) => {
                &&& result matches Ok(joined)
                &&& match resolved {
                    Ok(object) => {
                        &&& joined.posts@ == listed.posts@ + found(object.post)
                        &&& joined.comments@ == listed.comments@ + found(object.comment)
                        &&& joined.communities@ == listed.communities@ + found(object.community)
                        &&& joined.users@ == listed.users@ + found(object.person)
                    },
                    Err(_) => joined == listed,
                }
            },
        },
{
    let mut joined = match found_by_search {
        Ok(listed) => listed,
        Err(error) => {
            return Err(error);
        },
    };
    match resolved {
        Ok(object) => {
            push_found(&mut joined.posts, object.post);
            push_found(&mut joined.comments, object.comment);
            push_found(&mut joined.communities, object.community);
            push_found(&mut joined.users, object.person);
        },
        Err(_) => {},
    }
    Ok(joined)
}

/// The number of entries that a search found, of all kinds together.
pub fn search_results_count(results: &SearchResponse) -> (count: usize)
    requires
        results.users@.len() + results.communities@.len() + results.posts@.len()
            + results.comments@.len() <= usize::MAX,
    ensures
        count == results.users@.len() + results.communities@.len() + results.posts@.len()
            + results.comments@.len(),
{
    results.users.len() + results.communities.len() + results.posts.len() + results.comments.len()
}

} // verus!
