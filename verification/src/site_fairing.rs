//! What is known of the site and of the visitor while one request is served,
//! and the steps by which it is gathered.

use crate::api::extra::{get_notifications, is_sorted_inbox, Notification};
use crate::api::{ApiCall, Sensitive};
use crate::error::ApiError;
use crate::model::{CommentReplyView, PersonMentionView, PrivateMessageView, Site};
use crate::text::{starts_with, str_eq};
use vstd::prelude::*;

verus! {

/// Fetches the site's data at the start of each request.
pub struct SiteFairing {}

impl SiteFairing {
    /// The name under which the fetcher is registered.
    pub fn name(&self) -> (name: &'static str)
        ensures
            name@ == "Site data fetcher"@,
    {
        "Site data fetcher"
    }

    /// Decides whether the site's data is fetched for a request to `path`:
    /// for every path but those of the static files, which begin with `/assets`.
    pub fn on_request(&self, path: &str) -> (fetch: bool)
        ensures
            fetch == !"/assets"@.is_prefix_of(path@),
    {
        !starts_with(path, "/assets")
    }
}

/// What a request brings with it.
pub struct RequestContext {
    /// The session token from the visitor's cookie, if there is one.
    pub auth: Option<Sensitive>,
    /// The language that the visitor's browser asks for, or the empty string.
    pub browser_lang: String,
    /// The time at which the request is served, as it is shown.
    pub current_date_time: String,
    /// The front-end's version.
    pub lemmybb_version: String,
}

/// What every page knows of the site and of the visitor.
pub struct SiteData {
    pub site: Site,
    pub notifications: Vec<Notification>,
    pub unread_pm_count: usize,
    pub current_date_time: String,
    pub auth: Option<Sensitive>,
    pub lang: String,
    pub lemmybb_version: String,
}

/// The language that the browser asks for first: the first value of its
/// `accept-language` headers, or the empty string where it sent none.
pub fn browser_language(accept_language: Vec<String>) -> (language: String)
    ensures
        accept_language@.len() > 0 ==> language == accept_language@[0],
        accept_language@.len() == 0 ==> language@ == Seq::<char>::empty(),
{
    let mut values = accept_language;
    if values.len() > 0 {
        values.swap_remove(0)
    } else {
        String::new()
    }
}

/// The front-end's version as it is shown: the version that it was built
/// as, or `unknown version`.
pub fn version_or_unknown(built_as: Option<&str>) -> (version: String)
    ensures
        match built_as {
            Some(name) => version@ == name@,
            None => version@ == "unknown version"@,
        },
{
    match built_as {
        Some(name) => name.to_owned(),
        None => "unknown version".to_owned(),
    }
}

/// The language in which the pages are shown: the one that the logged-in
/// visitor chose in the profile, unless that is `browser`; for everyone else
/// the browser's.
pub open spec fn language_of(site: Site, browser_lang: String) -> String {
    match site.my_user {
        Some(user) => if user.interface_language@ == "browser"@ {
            browser_lang
        } else {
            user.interface_language
        },
        None => browser_lang,
    }
}

/// Chooses the language in which the pages are shown.
pub fn resolve_language(site: &Site, browser_lang: String) -> (language: String)
    ensures
        language == language_of(*site, browser_lang),
{
    match &site.my_user {
        Some(user) => {
            if str_eq(user.interface_language.as_str(), "browser") {
                browser_lang
            } else {
                user.interface_language.clone()
            }
        },
        None => browser_lang,
    }
}

/// How far the gathering of the site's data has come.
pub enum SiteState {
    /// Nothing has been asked yet.
    Start,
    /// The site's record was asked for, with the session that `context` holds.
    AwaitingSite { context: RequestContext },
    /// The visitor's unread mentions, replies and private messages were asked
    /// for; the rest is in `data`.
    AwaitingInbox { data: SiteData },
    /// The gathering has ended.
    Finished,
}

/// What happened since the last step.
pub enum SiteEvent {
    /// A request came in.
    Begin(RequestContext),
    /// The backend answered the call for the site's record.
    SiteFetched(Result<Site, ApiError>),
    /// The backend answered the three calls for what the visitor has not read.
    InboxFetched {
        mentions: Result<Vec<PersonMentionView>, ApiError>,
        replies: Result<Vec<CommentReplyView>, ApiError>,
        private_messages: Result<Vec<PrivateMessageView>, ApiError>,
    },
}

/// What is to be done next.
pub enum SiteAction {
    /// Fetch the site's record.
    FetchSite(ApiCall),
    /// Remove the visitor's session cookie, then fetch the site's record.
    ClearSessionAndFetchSite(ApiCall),
    /// Make the three calls side by side.
    FetchInbox { mentions: ApiCall, replies: ApiCall, private_messages: ApiCall },
    /// The data is complete.
    Done(SiteData),
    /// The request cannot be served.
    Fail(ApiError),
}

/// The data of a request before anything is known of the visitor's inbox.
pub open spec fn is_fresh_data(data: SiteData, site: Site, context: RequestContext) -> bool {
    &&& data.site == site
    &&& data.notifications@ == Seq::<Notification>::empty()
    &&& data.unread_pm_count == 0
    &&& data.current_date_time == context.current_date_time
    &&& data.auth == context.auth
    &&& data.lang == language_of(site, context.browser_lang)
    &&& data.lemmybb_version == context.lemmybb_version
}

/// Whether `next` and `action` are the step that follows `event` in `state`.
///
/// The site's record is fetched with the visitor's session. If the backend
/// refuses that session as not logged in, the session is dropped and the
/// record fetched once more without one; any other failure, and any failure
/// of a call made without a session, ends the request. With a session, the
/// unread mentions, replies and private messages are fetched then; if one of
/// these calls fails, the request fails with the error of the first of them
/// that did.
pub open spec fn site_step(
    state: SiteState,
    event: SiteEvent,
    next: SiteState,
    action: SiteAction,
) -> bool {
    match (state, event) {
        (SiteState::Start, SiteEvent::Begin(context)) => {
            &&& next == (SiteState::AwaitingSite { context })
            &&& action == SiteAction::FetchSite(ApiCall::GetSite { auth: context.auth })
        },
        (SiteState::AwaitingSite { context }, SiteEvent::SiteFetched(Err(error))) => {
            if error.is_not_logged_in() && context.auth is Some {
                &&& next == (SiteState::AwaitingSite {
                    context: RequestContext {
                        auth: None,
                        browser_lang: context.browser_lang,
                        current_date_time: context.current_date_time,
                        lemmybb_version: context.lemmybb_version,
                    },
                })
                &&& action == SiteAction::ClearSessionAndFetchSite(ApiCall::GetSite { auth: None })
            } else {
                next is Finished && action == SiteAction::Fail(error)
            }
        },
        (SiteState::AwaitingSite { context }, SiteEvent::SiteFetched(Ok(site))) => {
            match context.auth {
                Some(auth) => {
                    &&& next matches SiteState::AwaitingInbox { data }
                    &&& is_fresh_data(data, site, context)
                    &&& action == (SiteAction::FetchInbox {
                        mentions: ApiCall::ListMentions { unread_only: true, auth },
                        replies: ApiCall::ListReplies { unread_only: true, auth },
                        private_messages: ApiCall::ListPrivateMessages { unread_only: true, auth },
                    })
                },
                None => {
                    &&& next is Finished
                    &&& action matches SiteAction::Done(data)
                    &&& is_fresh_data(data, site, context)
                },
            }
        },
        (
            SiteState::AwaitingInbox { data },
            SiteEvent::InboxFetched { mentions, replies, private_messages },
        ) => {
            &&& next is Finished
            &&& match (mentions, replies, private_messages) {
                (Err(error), _, _) => action == SiteAction::Fail(error),
                (Ok(_), Err(error), _) => action == SiteAction::Fail(error),
                (Ok(_), Ok(_), Err(error)) => action == SiteAction::Fail(error),
                (Ok(mentions), Ok(replies), Ok(private_messages)) => {
                    &&& action matches SiteAction::Done(complete)
                    &&& is_sorted_inbox(complete.notifications@, mentions@, replies@)
                    &&& complete.unread_pm_count == private_messages@.len()
                    &&& complete.site == data.site
                    &&& complete.current_date_time == data.current_date_time
                    &&& complete.auth == data.auth
                    &&& complete.lang == data.lang
                    &&& complete.lemmybb_version == data.lemmybb_version
                },
            }
        },
        _ => {
            &&& next is Finished
            &&& action matches SiteAction::Fail(ApiError::Rejected(message))
            &&& message@ == "event does not fit the state"@
        },
    }
}

/// One step of gathering the site's data for a request: takes the state and
/// what happened, and gives the next state and what to do.
pub fn get_site_data(state: SiteState, event: SiteEvent) -> (step: (SiteState, SiteAction))
    ensures
        site_step(state, event, step.0, step.1),
{
    match (state, event) {
        (SiteState::Start, SiteEvent::Begin(context)) => {
            let call = ApiCall::GetSite { auth: crate::api::duplicate_auth(&context.auth) };
            (SiteState::AwaitingSite { context }, SiteAction::FetchSite(call))
        },
        (SiteState::AwaitingSite { context }, SiteEvent::SiteFetched(fetched)) => {
            match fetched {
                Err(error) => {
                    if error.not_logged_in() && context.auth.is_some() {
                        let anonymous = RequestContext {
                            auth: None,
                            browser_lang: context.browser_lang,
                            current_date_time: context.current_date_time,
                            lemmybb_version: context.lemmybb_version,
                        };
                        (
                            SiteState::AwaitingSite { context: anonymous },
                            SiteAction::ClearSessionAndFetchSite(ApiCall::GetSite { auth: None }),
                        )
                    } else {
                        (SiteState::Finished, SiteAction::Fail(error))
                    }
                },
                Ok(site) => {
                    let lang = resolve_language(&site, context.browser_lang);
                    let calls = match &context.auth {
                        Some(auth) => Some(
                            (
                                ApiCall::ListMentions { unread_only: true, auth: auth.duplicate() },
                                ApiCall::ListReplies { unread_only: true, auth: auth.duplicate() },
                                ApiCall::ListPrivateMessages {
                                    unread_only: true,
                                    auth: auth.duplicate(),
                                },
                            ),
                        ),
                        None => None,
                    };
                    let data = SiteData {
                        site,
                        notifications: Vec::new(),
                        unread_pm_count: 0,
                        current_date_time: context.current_date_time,
                        auth: context.auth,
                        lang,
                        lemmybb_version: context.lemmybb_version,
                    };
                    match calls {
                        Some((mentions, replies, private_messages)) => (
                            SiteState::AwaitingInbox { data },
                            SiteAction::FetchInbox { mentions, replies, private_messages },
                        ),
                        None => (SiteState::Finished, SiteAction::Done(data)),
                    }
                },
            }
        },
        (
            SiteState::AwaitingInbox { data },
            SiteEvent::InboxFetched { mentions, replies, private_messages },
        ) => {
            let notifications = match get_notifications(mentions, replies) {
                Ok(notifications) => notifications,
                Err(error) => {
                    return (SiteState::Finished, SiteAction::Fail(error));
                },
            };
            let private_messages = match private_messages {
                Ok(private_messages) => private_messages,
                Err(error) => {
                    return (SiteState::Finished, SiteAction::Fail(error));
                },
            };
            let complete = SiteData {
                site: data.site,
                notifications,
                unread_pm_count: private_messages.len(),
                current_date_time: data.current_date_time,
                auth: data.auth,
                lang: data.lang,
                lemmybb_version: data.lemmybb_version,
            };
            (SiteState::Finished, SiteAction::Done(complete))
        },
        _ => (
            SiteState::Finished,
            SiteAction::Fail(ApiError::Rejected("event does not fit the state".to_owned())),
        ),
    }
}

/// How far a state is from the end of the gathering, at most.
pub open spec fn site_steps_left(state: SiteState) -> nat {
    match state {
        SiteState::Start => 4,
        SiteState::AwaitingSite { context } => if context.auth is Some {
            3
        } else {
            2
        },
        SiteState::AwaitingInbox { .. } => 1,
        SiteState::Finished => 0,
    }
}

/// Every step of the gathering either asks for calls and comes closer to the
/// end, or ends the gathering with the data or with an error; so no request
/// makes more than three rounds of calls.
pub proof fn lemma_gathering_ends(
    state: SiteState,
    event: SiteEvent,
    next: SiteState,
    action: SiteAction,
)
    requires
        site_step(state, event, next, action),
    ensures
        (action is Done || action is Fail) <==> next is Finished,
        !(next is Finished) ==> site_steps_left(next) < site_steps_left(state),
{
}

/// A session that the backend refuses as not logged in is dropped, and the
/// site's record is fetched once more without one; whatever fails after
/// that ends the request: there is no second retry.
pub proof fn lemma_one_retry_and_no_more(
    context: RequestContext,
    refusal: ApiError,
    retrying: SiteState,
    retry: SiteAction,
    failure: ApiError,
    last: SiteState,
    end: SiteAction,
)
    requires
        context.auth is Some,
        refusal.is_not_logged_in(),
        site_step(
            SiteState::AwaitingSite { context },
            SiteEvent::SiteFetched(Err(refusal)),
            retrying,
            retry,
        ),
        site_step(retrying, SiteEvent::SiteFetched(Err(failure)), last, end),
    ensures
        retry == SiteAction::ClearSessionAndFetchSite(ApiCall::GetSite { auth: None }),
        retrying matches SiteState::AwaitingSite { context: anonymous } && anonymous.auth is None,
        end == SiteAction::Fail(failure),
        last is Finished,
{
}

/// A failure of the call for the site's record leads to a retry only if a
/// session was sent along and the backend refused it as not logged in.
pub proof fn lemma_retry_only_when_not_logged_in(
    context: RequestContext,
    error: ApiError,
    next: SiteState,
    action: SiteAction,
)
    requires
        site_step(
            SiteState::AwaitingSite { context },
            SiteEvent::SiteFetched(Err(error)),
            next,
            action,
        ),
    ensures
        action is ClearSessionAndFetchSite <==> (context.auth is Some && error.is_not_logged_in()),
        !(action is ClearSessionAndFetchSite) ==> action == SiteAction::Fail(error),
{
}

} // verus!
