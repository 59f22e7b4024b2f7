//! The front page's categories: named groups of communities, read from a
//! configuration file, each community with its latest reply.

use crate::api::extra::PostOrComment;
use crate::api::site::found;
use crate::api::{duplicate_auth, ApiCall, Sensitive};
use crate::error::{all_succeeded, collect_results, is_first_failure, ApiError};
use crate::model::{CommunityView, ResolveObjectResponse};
use crate::text::to_chars;
use crate::vecs::{reverse, zip};
use vstd::prelude::*;

verus! {

/// The file that names the categories.
pub const CATEGORIES_FILE: &'static str = "lemmybb_categories.hjson";

/// The error with which `deser_hjson` refuses a text.
#[verifier::external_type_specification]
#[verifier::external_body]
pub struct ExHjsonError(deser_hjson::Error);

/// What `deser_hjson` reads from the Hjson text `text` as a list of pairs of
/// a string and a list of strings; `None` where it refuses the text.
pub uninterp spec fn hjson_categories(text: Seq<char>) -> Option<Seq<(Seq<char>, Seq<Seq<char>>)>>;

/// The names in a list.
pub open spec fn names_view(names: Seq<String>) -> Seq<Seq<char>> {
    names.map_values(|name: String| name@)
}

/// The categories in a configuration: each one's name and the addresses
/// of its communities.
pub open spec fn config_view(config: Seq<(String, Vec<String>)>) -> Seq<(Seq<char>, Seq<Seq<char>>)> {
    config.map_values(|category: (String, Vec<String>)| (category.0@, names_view(category.1@)))
}

/// Whether `text` is one that the reader of the configuration can be given:
/// it holds ASCII characters only, and does not end with an apostrophe.
pub open spec fn is_plain_text(text: Seq<char>) -> bool {
    &&& forall|i: int| 0 <= i < text.len() ==> (#[trigger] text[i]) as u32 <= 0x7F
    &&& text.len() > 0 ==> text.last() != '\''
}

/// Decides whether `text` is one that the reader of the configuration can
/// be given.
pub fn plain_text(text: &str) -> (plain: bool)
    ensures
        plain == is_plain_text(text@),
{
    let chars = to_chars(text);
    let mut i: usize = 0;
    while i < chars.len()
        invariant
            i <= chars.len(),
            chars@ == text@,
            forall|j: int| 0 <= j < i ==> (#[trigger] chars@[j]) as u32 <= 0x7F,
        decreases chars.len() - i,
    {
        if chars[i] as u32 > 0x7F {
            return false;
        }
        i += 1;
    }
    chars.len() == 0 || chars[chars.len() - 1] != '\''
}

/// `deser_hjson::from_str`, at the type of the categories' configuration:
/// what it reads depends on the text alone. It is given plain texts only:
/// on a text with a character beyond ASCII, or with an apostrophe at its
/// end, it may take a byte for a character, or look past the end.
#[verifier::external_body]
fn hjson_from_str(text: &str) -> (parsed: Result<Vec<(String, Vec<String>)>, deser_hjson::Error>)
    requires
        is_plain_text(text@),
    ensures
        match parsed {
            Ok(config) => hjson_categories(text@) == Some(config_view(config@)),
            Err(_) => hjson_categories(text@) is None,
        },
{
    deser_hjson::from_str(text)
}

/// The message of an error of `deser_hjson`, as its `Display` writes it.
#[verifier::external_body]
fn hjson_error_message(error: &deser_hjson::Error) -> (message: String) {
    error.to_string()
}

/// The categories that the text of a configuration file names: what
/// `deser_hjson` reads from a plain text; none for any other text.
pub open spec fn categories_in(text: Seq<char>) -> Option<Seq<(Seq<char>, Seq<Seq<char>>)>> {
    if is_plain_text(text) {
        hjson_categories(text)
    } else {
        None
    }
}

/// The message with which a text is refused that is not plain.
pub open spec fn not_plain() -> Seq<char> {
    "configuration holds a character that is not ASCII, or ends with an apostrophe"@
}

/// Reads the categories from the text of the configuration file. A text
/// that is not plain, or not a list of categories, is refused.
pub fn read_categories_file(config_str: &str) -> (config: Result<
    Vec<(String, Vec<String>)>,
    ApiError,
>)
    ensures
        match config {
            Ok(categories) => categories_in(config_str@) == Some(config_view(categories@)),
            Err(error) => {
                &&& categories_in(config_str@) is None
                &&& error matches ApiError::Rejected(message)
                &&& !is_plain_text(config_str@) ==> message@ == not_plain()
            },
        },
{
    if !plain_text(config_str) {
        let message =
            "configuration holds a character that is not ASCII, or ends with an apostrophe";
        return Err(ApiError::Rejected(message.to_owned()));
    }
    match hjson_from_str(config_str) {
        Ok(categories) => Ok(categories),
        Err(error) => Err(ApiError::Rejected(hjson_error_message(&error))),
    }
}

/// The call that resolves the address `community`.
pub open spec fn resolve_call(community: String, auth: Option<Sensitive>) -> ApiCall {
    ApiCall::ResolveObject { q: community, auth }
}

/// The calls that resolve the communities of a category, one for each
/// address, in their order; they are made side by side.
pub fn resolve_calls(communities: &Vec<String>, auth: &Option<Sensitive>) -> (calls: Vec<ApiCall>)
    ensures
        calls@ == communities@.map_values(|community: String| resolve_call(community, *auth)),
{
    let mut calls: Vec<ApiCall> = Vec::new();
    let mut i: usize = 0;
    while i < communities.len()
        invariant
            i <= communities.len(),
            calls@.len() == i,
            forall|k: int|
                0 <= k < i ==> #[trigger] calls@[k] == resolve_call(communities@[k], *auth),
        decreases communities.len() - i,
    {
        calls.push(ApiCall::ResolveObject { q: communities[i].clone(), auth: duplicate_auth(auth) });
        i += 1;
    }
    assert(calls@ =~= communities@.map_values(|community: String| resolve_call(community, *auth)));
    calls
}

/// The community that an address resolved to, if the call succeeded and
/// the address is that of a community.
pub open spec fn community_of(response: Result<ResolveObjectResponse, ApiError>) -> Option<
    CommunityView,
> {
    match response {
        Ok(object) => object.community,
        Err(_) => None,
    }
}

/// The communities that the addresses of a category resolved to, in the
/// order of the addresses. An address that could not be resolved, or that is
/// not that of a community, is passed over.
pub open spec fn communities_of(responses: Seq<Result<ResolveObjectResponse, ApiError>>) -> Seq<
    CommunityView,
>
    decreases responses.len(),
{
    if responses.len() == 0 {
        Seq::empty()
    } else {
        communities_of(responses.drop_last()) + found(community_of(responses.last()))
    }
}

/// Picks the communities out of the answers to the calls that resolve the
/// addresses of a category.
pub fn resolved_communities(responses: Vec<Result<ResolveObjectResponse, ApiError>>) -> (communities:
    Vec<CommunityView>)
    ensures
        communities@ == communities_of(responses@),
{
    let ghost all = responses@;
    let mut rest = reverse(responses);
    let mut communities: Vec<CommunityView> = Vec::new();
    assert(all.take(0) =~= Seq::<Result<ResolveObjectResponse, ApiError>>::empty());
    while rest.len() > 0
        invariant
            rest@ == all.reverse().take(rest@.len() as int),
            rest@.len() <= all.len(),
            communities@ == communities_of(all.take(all.len() - rest@.len())),
        decreases rest.len(),
    {
        let ghost done = all.len() - rest@.len();
        let response = rest.pop().unwrap();
        assert(response == all[done]);
        assert(all.take(done + 1).drop_last() =~= all.take(done));
        assert(all.take(done + 1).last() == all[done]);
        let ghost before = communities@;
        match response {
            Ok(object) => match object.community {
                Some(community) => {
                    communities.push(community);
                    assert(communities@ =~= before + found(Some(community)));
                },
                None => {
                    assert(communities@ =~= before + found(None::<CommunityView>));
                },
            },
            Err(_) => {
                assert(communities@ =~= before + found(None::<CommunityView>));
            },
        }
    }
    assert(all.take(all.len() as int) =~= all);
    communities
}

/// A category of the front page: its name, and its communities, each with
/// its latest reply.
pub struct Category {
    pub name: String,
    pub communities: Vec<(CommunityView, Option<PostOrComment>)>,
}

/// Whether `listed` is the category named `key` with `communities`, each
/// joined with the latest reply that was found for it.
pub open spec fn is_category(
    listed: Category,
    key: String,
    communities: Seq<CommunityView>,
    last_replies: Seq<Result<Option<PostOrComment>, ApiError>>,
) -> bool {
    &&& listed.name == key
    &&& listed.communities@.len() == communities.len()
    &&& forall|i: int|
        0 <= i < communities.len() ==> (#[trigger] listed.communities@[i]).0 == communities[i]
            && last_replies[i] == Ok::<Option<PostOrComment>, ApiError>(listed.communities@[i].1)
}

/// Joins the communities of a category with their latest replies, which
/// were searched for side by side: each community with its own. If one of
/// the searches failed, the category fails with the error of the first that did.
pub fn category(
    key: String,
    communities: Vec<CommunityView>,
    last_replies: Vec<Result<Option<PostOrComment>, ApiError>>,
) -> (listed: Result<Category, ApiError>)
    requires
        communities@.len() == last_replies@.len(),
    ensures
        match listed {
            Ok(listed) => is_category(listed, key, communities@, last_replies@),
            Err(error) => exists|at: int|
                is_first_failure(last_replies@, at) && #[trigger] last_replies@[at] == Err::<
                    Option<PostOrComment>,
                    ApiError,
                >(error),
        },
{
    match collect_results(last_replies) {
        Ok(replies) => Ok(Category { name: key, communities: zip(communities, replies) }),
        Err(error) => Err(error),
    }
}

/// How far the listing of the categories has come.
pub enum CategoriesState {
    /// Nothing has been read yet.
    Start,
    /// The addresses of the communities of the category at index `at` of
    /// `config` are being resolved; the categories before it are `done`.
    Resolving { auth: Option<Sensitive>, config: Vec<(String, Vec<String>)>, at: usize, done: Vec<Category> },
    /// The latest replies in `communities`, which the category at index `at`
    /// of `config` resolved to, are being searched for.
    Searching {
        auth: Option<Sensitive>,
        config: Vec<(String, Vec<String>)>,
        at: usize,
        communities: Vec<CommunityView>,
        done: Vec<Category>,
    },
    /// The listing has ended.
    Finished,
}

/// What happened since the last step.
pub enum CategoriesEvent {
    /// The categories are wanted; `config_str` is the text of the
    /// configuration file.
    Begin { config_str: String, auth: Option<Sensitive> },
    /// The backend answered the calls that resolve the addresses.
    Resolved(Vec<Result<ResolveObjectResponse, ApiError>>),
    /// The searches for the latest replies have ended.
    Searched(Vec<Result<Option<PostOrComment>, ApiError>>),
}

/// What is to be done next.
pub enum CategoriesAction {
    /// Make these calls, side by side.
    Resolve(Vec<ApiCall>),
    /// Search for the latest reply in each of the communities with these
    /// numbers, side by side.
    Search(Vec<i32>),
    /// The categories are listed.
    Return(Vec<Category>),
    /// The listing failed.
    Fail(ApiError),
}

/// The numbers of `communities`, in their order.
pub open spec fn numbers_of(communities: Seq<CommunityView>) -> Seq<i32> {
    communities.map_values(|view: CommunityView| view.community.id)
}

/// Whether `next` and `action` begin the work on the category at index `at`
/// of `config`, or end the listing where there is no such category.
pub open spec fn turns_to_category(
    auth: Option<Sensitive>,
    config: Vec<(String, Vec<String>)>,
    at: int,
    done: Vec<Category>,
    next: CategoriesState,
    action: CategoriesAction,
) -> bool {
    if at < config@.len() {
        &&& next == (CategoriesState::Resolving { auth, config, at: at as usize, done })
        &&& action matches CategoriesAction::Resolve(calls)
        &&& calls@ == config@[at].1@.map_values(|community: String| resolve_call(community, auth))
    } else {
        next is Finished && action == CategoriesAction::Return(done)
    }
}

/// Whether `next` and `action` are the step that follows `event` in `state`.
///
/// The configuration is read, and its categories are worked on one after
/// the other, in their order: the addresses of the category's communities
/// are resolved, and addresses that do not resolve to a community are passed
/// over; then the latest reply in each community is searched for. If one of
/// these searches fails, or if the configuration cannot be read, the listing
/// fails.
pub open spec fn categories_step(
    state: CategoriesState,
    event: CategoriesEvent,
    next: CategoriesState,
    action: CategoriesAction,
) -> bool {
    match (state, event) {
        (CategoriesState::Start, CategoriesEvent::Begin { config_str, auth }) => {
            match categories_in(config_str@) {
                None => next is Finished && action matches CategoriesAction::Fail(
                    ApiError::Rejected(_),
                ),
                Some(read) => exists|config: Vec<(String, Vec<String>)>, done: Vec<Category>|
                    {
                        &&& config_view(config@) == read
                        &&& done@.len() == 0
                        &&& #[trigger] turns_to_category(auth, config, 0, done, next, action)
                    },
            }
        },
        (
            CategoriesState::Resolving { auth, config, at, done },
            CategoriesEvent::Resolved(responses),
        ) => {
            if at < config@.len() {
                &&& next matches CategoriesState::Searching {
                    auth: kept_auth,
                    config: kept_config,
                    at: kept_at,
                    communities,
                    done: kept_done,
                }
                &&& kept_auth == auth && kept_config == config && kept_at == at && kept_done == done
                &&& communities@ == communities_of(responses@)
                &&& action matches CategoriesAction::Search(numbers)
                &&& numbers@ == numbers_of(communities@)
            } else {
                next is Finished && fails_out_of_turn(action)
            }
        },
        (
            CategoriesState::Searching { auth, config, at, communities, done },
            CategoriesEvent::Searched(last_replies),
        ) => {
            if at < config@.len() && communities@.len() == last_replies@.len() {
                if all_succeeded(last_replies@) {
                    exists|listed: Category, longer: Vec<Category>|
                        {
                            &&& #[trigger] is_category(
                                listed,
                                config@[at as int].0,
                                communities@,
                                last_replies@,
                            )
                            &&& longer@ == done@.push(listed)
                            &&& #[trigger] turns_to_category(
                                auth,
                                config,
                                at + 1,
                                longer,
                                next,
                                action,
                            )
                        }
                } else {
                    &&& next is Finished
                    &&& exists|failed: int|
                        is_first_failure(last_replies@, failed) && action == CategoriesAction::Fail(
                            (#[trigger] last_replies@[failed])->Err_0,
                        )
                }
            } else {
                next is Finished && fails_out_of_turn(action)
            }
        },
        _ => next is Finished && fails_out_of_turn(action),
    }
}

/// Whether `action` fails with the error for an event that the state does
/// not wait for.
pub open spec fn fails_out_of_turn(action: CategoriesAction) -> bool {
    action matches CategoriesAction::Fail(ApiError::Rejected(message)) && message@
        == "event does not fit the state"@
}

fn out_of_turn() -> (step: (CategoriesState, CategoriesAction))
    ensures
        step.0 is Finished,
        fails_out_of_turn(step.1),
{
    (
        CategoriesState::Finished,
        CategoriesAction::Fail(ApiError::Rejected("event does not fit the state".to_owned())),
    )
}

fn turn_to_category(
    auth: Option<Sensitive>,
    config: Vec<(String, Vec<String>)>,
    at: usize,
    done: Vec<Category>,
) -> (step: (CategoriesState, CategoriesAction))
    requires
        at <= config@.len(),
    ensures
        turns_to_category(auth, config, at as int, done, step.0, step.1),
{
    if at < config.len() {
        let calls = resolve_calls(&config[at].1, &auth);
        (CategoriesState::Resolving { auth, config, at, done }, CategoriesAction::Resolve(calls))
    } else {
        (CategoriesState::Finished, CategoriesAction::Return(done))
    }
}

fn community_numbers(communities: &Vec<CommunityView>) -> (numbers: Vec<i32>)
    ensures
        numbers@ == numbers_of(communities@),
{
    let mut numbers: Vec<i32> = Vec::new();
    let mut i: usize = 0;
    while i < communities.len()
        invariant
            i <= communities.len(),
            numbers@.len() == i,
            forall|k: int| 0 <= k < i ==> #[trigger] numbers@[k] == communities@[k].community.id,
        decreases communities.len() - i,
    {
        numbers.push(communities[i].community.id);
        i += 1;
    }
    assert(numbers@ =~= numbers_of(communities@));
    numbers
}

/// One step of listing the categories of the front page: takes the state and
/// what happened, and gives the next state and what to do.
pub fn get_categories(state: CategoriesState, event: CategoriesEvent) -> (step: (
    CategoriesState,
    CategoriesAction,
))
    ensures
        categories_step(state, event, step.0, step.1),
{
    match (state, event) {
        (CategoriesState::Start, CategoriesEvent::Begin { config_str, auth }) => {
            match read_categories_file(config_str.as_str()) {
                Err(error) => (CategoriesState::Finished, CategoriesAction::Fail(error)),
                Ok(config) => {
                    let done: Vec<Category> = Vec::new();
                    let step = turn_to_category(auth, config, 0, done);
                    assert(turns_to_category(auth, config, 0, done, step.0, step.1));
                    step
                },
            }
        },
        (
            CategoriesState::Resolving { auth, config, at, done },
            CategoriesEvent::Resolved(responses),
        ) => {
            if at < config.len() {
                let communities = resolved_communities(responses);
                let numbers = community_numbers(&communities);
                (
                    CategoriesState::Searching { auth, config, at, communities, done },
                    CategoriesAction::Search(numbers),
                )
            } else {
                out_of_turn()
            }
        },
        (
            CategoriesState::Searching { auth, config, at, communities, done },
            CategoriesEvent::Searched(last_replies),
        ) => {
            if at < config.len() && communities.len() == last_replies.len() {
                let key = config[at].0.clone();
                match category(key, communities, last_replies) {
                    Ok(listed) => {
                        let mut longer = done;
                        longer.push(listed);
                        assert(all_succeeded(last_replies@)) by {
                            assert forall|j: int| 0 <= j < last_replies@.len() implies (
                            #[trigger] last_replies@[j]) is Ok by {
                                assert(last_replies@[j] == Ok::<Option<PostOrComment>, ApiError>(
                                    listed.communities@[j].1,
                                ));
                            }
                        }
                        let step = turn_to_category(auth, config, at + 1, longer);
                        assert(turns_to_category(auth, config, at + 1, longer, step.0, step.1));
                        step
                    },
                    Err(error) => {
                        (CategoriesState::Finished, CategoriesAction::Fail(error))
                    },
                }
            } else {
                out_of_turn()
            }
        },
        _ => out_of_turn(),
    }
}

} // verus!
