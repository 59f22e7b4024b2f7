use lemmy_bb::api::{ApiCall, Sensitive};
use lemmy_bb::error::ApiError;
use lemmy_bb::model::{
    Comment, CommentReplyView, LocalUser, Person, PersonMentionView, Post, PrivateMessage,
    PrivateMessageView, Site,
};
use lemmy_bb::site_fairing::{
    browser_language, get_site_data, resolve_language, version_or_unknown, RequestContext,
    SiteAction, SiteEvent, SiteFairing, SiteState,
};
use lemmy_bb::time::Timestamp;

fn person(id: i32) -> Person {
    Person {
        id,
        name: format!("user{}", id),
        display_name: None,
        local: true,
        admin: false,
        actor_domain: None,
    }
}

fn site(language: Option<&str>) -> Site {
    Site {
        name: "Forum".to_string(),
        description: None,
        actor_scheme: "https".to_string(),
        actor_domain: Some("example.com".to_string()),
        site_setup: true,
        legal_information: None,
        my_user: language
            .map(|l| LocalUser { person: person(2), interface_language: l.to_string() }),
    }
}

fn context(auth: Option<&str>) -> RequestContext {
    RequestContext {
        auth: auth.map(|a| Sensitive::new(a.to_string())),
        browser_lang: "de".to_string(),
        current_date_time: "Wed  5-Oct-2022 19:17".to_string(),
        lemmybb_version: "0.1".to_string(),
    }
}

fn not_logged_in() -> ApiError {
    ApiError::Upstream("not_logged_in".to_string())
}

fn post(id: i32) -> Post {
    Post {
        id,
        name: String::new(),
        body: None,
        url: None,
        ap_id: String::new(),
        published: Timestamp::new(0, 0),
        deleted: false,
        removed: false,
    }
}

fn comment(secs: i64) -> Comment {
    Comment {
        id: secs as i32,
        creator_id: 3,
        content: "text".to_string(),
        ap_id: String::new(),
        published: Timestamp::new(secs, 0),
        deleted: false,
        removed: false,
    }
}

fn message(id: i32) -> PrivateMessageView {
    PrivateMessageView {
        private_message: PrivateMessage {
            id,
            content: String::new(),
            read: false,
            published: Timestamp::new(0, 0),
        },
        creator: person(3),
        recipient: person(2),
    }
}

#[test]
fn site_data_is_fetched_for_all_but_static_files() {
    let fairing = SiteFairing {};
    assert_eq!(fairing.name(), "Site data fetcher");
    assert!(fairing.on_request("/"));
    assert!(fairing.on_request("/view_topic"));
    assert!(fairing.on_request("/asset"));
    assert!(!fairing.on_request("/assets"));
    assert!(!fairing.on_request("/assets/css/style.css"));
    assert!(fairing.on_request("/x/assets"));
}

#[test]
fn request_begins_with_the_site_record() {
    let (state, action) = get_site_data(SiteState::Start, SiteEvent::Begin(context(Some("jwt"))));
    assert!(matches!(state, SiteState::AwaitingSite { .. }));
    assert!(matches!(action, SiteAction::FetchSite(ApiCall::GetSite { auth: Some(auth) })
        if auth.expose() == "jwt"));
    let (_, action) = get_site_data(SiteState::Start, SiteEvent::Begin(context(None)));
    assert!(matches!(action, SiteAction::FetchSite(ApiCall::GetSite { auth: None })));
}

#[test]
fn refused_session_is_dropped_and_the_site_fetched_once_more() {
    let state = SiteState::AwaitingSite { context: context(Some("stale")) };
    let (state, action) = get_site_data(state, SiteEvent::SiteFetched(Err(not_logged_in())));
    assert!(matches!(
        action,
        SiteAction::ClearSessionAndFetchSite(ApiCall::GetSite { auth: None })
    ));
    match &state {
        SiteState::AwaitingSite { context } => {
            assert!(context.auth.is_none());
            assert_eq!(context.browser_lang, "de");
        }
        _ => panic!("the site is awaited again"),
    }
    let (state, action) = get_site_data(state, SiteEvent::SiteFetched(Err(not_logged_in())));
    assert!(matches!(state, SiteState::Finished));
    assert!(matches!(action, SiteAction::Fail(ApiError::Upstream(token)) if token == "not_logged_in"));
}

#[test]
fn retried_request_goes_on_as_anonymous() {
    let state = SiteState::AwaitingSite { context: context(Some("stale")) };
    let (state, _) = get_site_data(state, SiteEvent::SiteFetched(Err(not_logged_in())));
    let (state, action) = get_site_data(state, SiteEvent::SiteFetched(Ok(site(None))));
    assert!(matches!(state, SiteState::Finished));
    match action {
        SiteAction::Done(data) => {
            assert!(data.auth.is_none());
            assert!(data.notifications.is_empty());
            assert_eq!(data.unread_pm_count, 0);
            assert_eq!(data.lang, "de");
        }
        _ => panic!("the data is complete"),
    }
}

#[test]
fn anonymous_request_is_not_retried() {
    let state = SiteState::AwaitingSite { context: context(None) };
    let (state, action) = get_site_data(state, SiteEvent::SiteFetched(Err(not_logged_in())));
    assert!(matches!(state, SiteState::Finished));
    assert!(matches!(action, SiteAction::Fail(ApiError::Upstream(_))));
}

#[test]
fn other_errors_are_not_retried() {
    for error in [
        ApiError::Upstream("site_ban".to_string()),
        ApiError::Transport("not_logged_in".to_string()),
        ApiError::Deserialize("not_logged_in".to_string()),
    ] {
        let state = SiteState::AwaitingSite { context: context(Some("jwt")) };
        let (state, action) = get_site_data(state, SiteEvent::SiteFetched(Err(error)));
        assert!(matches!(state, SiteState::Finished));
        assert!(matches!(action, SiteAction::Fail(_)));
    }
}

#[test]
fn logged_in_request_fetches_the_inbox() {
    let state = SiteState::AwaitingSite { context: context(Some("jwt")) };
    let (state, action) = get_site_data(state, SiteEvent::SiteFetched(Ok(site(Some("fr")))));
    match action {
        SiteAction::FetchInbox { mentions, replies, private_messages } => {
            assert!(matches!(mentions, ApiCall::ListMentions { unread_only: true, auth } if auth.expose() == "jwt"));
            assert!(matches!(replies, ApiCall::ListReplies { unread_only: true, auth } if auth.expose() == "jwt"));
            assert!(matches!(private_messages, ApiCall::ListPrivateMessages { unread_only: true, auth } if auth.expose() == "jwt"));
        }
        _ => panic!("the inbox is to be fetched"),
    }
    let mentions = vec![
        PersonMentionView { comment: comment(3), creator: person(3), post: post(1) },
        PersonMentionView { comment: comment(1), creator: person(3), post: post(1) },
    ];
    let replies = vec![CommentReplyView { comment: comment(2), creator: person(3), post: post(1) }];
    let (state, action) = get_site_data(
        state,
        SiteEvent::InboxFetched {
            mentions: Ok(mentions),
            replies: Ok(replies),
            private_messages: Ok(vec![message(1), message(2)]),
        },
    );
    assert!(matches!(state, SiteState::Finished));
    match action {
        SiteAction::Done(data) => {
            let times: Vec<i64> = data.notifications.iter().map(|n| n.time.secs).collect();
            assert_eq!(times, vec![1, 2, 3]);
            assert_eq!(data.unread_pm_count, 2);
            assert_eq!(data.lang, "fr");
            assert_eq!(data.auth.unwrap().expose(), "jwt");
            assert_eq!(data.site.name, "Forum");
            assert_eq!(data.current_date_time, "Wed  5-Oct-2022 19:17");
            assert_eq!(data.lemmybb_version, "0.1");
        }
        _ => panic!("the data is complete"),
    }
}

#[test]
fn failed_inbox_fails_the_request() {
    let begin = || {
        let state = SiteState::AwaitingSite { context: context(Some("jwt")) };
        get_site_data(state, SiteEvent::SiteFetched(Ok(site(None)))).0
    };
    let (_, action) = get_site_data(
        begin(),
        SiteEvent::InboxFetched {
            mentions: Ok(vec![]),
            replies: Err(ApiError::Upstream("replies".to_string())),
            private_messages: Err(ApiError::Upstream("messages".to_string())),
        },
    );
    assert!(matches!(action, SiteAction::Fail(ApiError::Upstream(token)) if token == "replies"));
    let (_, action) = get_site_data(
        begin(),
        SiteEvent::InboxFetched {
            mentions: Ok(vec![]),
            replies: Ok(vec![]),
            private_messages: Err(ApiError::Upstream("messages".to_string())),
        },
    );
    assert!(matches!(action, SiteAction::Fail(ApiError::Upstream(token)) if token == "messages"));
}

#[test]
fn site_event_out_of_turn_is_refused() {
    let (state, action) = get_site_data(SiteState::Start, SiteEvent::SiteFetched(Ok(site(None))));
    assert!(matches!(state, SiteState::Finished));
    assert!(matches!(action, SiteAction::Fail(ApiError::Rejected(message))
        if message == "event does not fit the state"));
}

#[test]
fn language_is_the_profile_s_unless_that_is_browser() {
    assert_eq!(resolve_language(&site(Some("fr")), "de".to_string()), "fr");
    assert_eq!(resolve_language(&site(Some("browser")), "de".to_string()), "de");
    assert_eq!(resolve_language(&site(None), "de".to_string()), "de");
    assert_eq!(resolve_language(&site(None), String::new()), "");
}

#[test]
fn browser_language_is_the_first_header() {
    assert_eq!(browser_language(vec!["de-DE,de;q=0.9".to_string(), "en".to_string()]), "de-DE,de;q=0.9");
    assert_eq!(browser_language(vec![]), "");
}

#[test]
fn version_defaults_to_unknown() {
    assert_eq!(version_or_unknown(Some("1.2.3")), "1.2.3");
    assert_eq!(version_or_unknown(None), "unknown version");
}
