use lemmy_bb::api::{ApiCall, ListingType, Sensitive, SortType};
use lemmy_bb::error::ApiError;
use lemmy_bb::model::{
    Comment, CommentView, Community, CommunityView, LocalUser, ModRemoveCommentView,
    ModRemovePostView, Person, Post, PrivateMessage, PrivateMessageView, Site,
};
use lemmy_bb::routes::backend_endpoints::{
    api_site, apub_comment, apub_community, apub_post, apub_user, backend_url, redirect_apub_comment,
    redirect_apub_community, feeds, inboxes, node_info, redirect_apub_post, redirect_apub_user, well_known,
    AcceptHeader, ApubStep,
};
use lemmy_bb::routes::comment::{
    comment_editor, do_comment, editor_title, newest_comments, CommentEditorStep, CommentForm,
    CommentStep,
};
use lemmy_bb::routes::community::{
    do_report, forum_pagination, report, subscription, view_forum, ReportForm,
};
use lemmy_bb::routes::moderation::{
    comment_excerpt, do_remove_item, mod_log, removal, remove_item, RemovalStep, RemoveItemForm,
};
use lemmy_bb::routes::post::{
    do_post, is_image_url, page_comments, post_editor, post_texts, view_topic, PostEditorStep,
    PostForm, PostStep,
};
use lemmy_bb::routes::private_message::{
    do_send_private_message, group_by_participant, mark_read_calls, private_message_editor,
    private_messages_list, private_messages_thread, sent_redirect, PrivateMessageForm, SendStep,
};
use lemmy_bb::routes::site::{
    community_list, community_pagination, do_setup, index, index_fallback, legal,
    order_communities, setup_site, IndexStep, SetupForm,
};
use lemmy_bb::routes::user::{
    do_edit_profile, do_login, do_register, edit_profile, edit_settings, has_upload, logged_in,
    login_title, non_empty, password_change, register_title, registered, view_profile,
    EditProfileAction, EditProfileEvent, EditProfileForm, EditProfileState, LoginForm,
    RegisterForm, RegisterStep, Registered,
};
use lemmy_bb::routes::{auth, build_jwt_cookie, SameSite};
use lemmy_bb::site_fairing::SiteData;
use lemmy_bb::time::Timestamp;

fn secret() -> Sensitive {
    Sensitive::new("secret".to_string())
}

fn person(id: i32) -> Person {
    Person {
        id,
        name: format!("user{}", id),
        display_name: None,
        local: true,
        admin: false,
        actor_domain: None,
    }
}

fn post(id: i32, name: &str) -> Post {
    Post {
        id,
        name: name.to_string(),
        body: None,
        url: None,
        ap_id: format!("https://example.com/post/{}", id),
        published: Timestamp::new(0, 0),
        deleted: false,
        removed: false,
    }
}

fn comment(id: i32, secs: i64, content: &str) -> Comment {
    Comment {
        id,
        creator_id: 1,
        content: content.to_string(),
        ap_id: format!("https://example.com/comment/{}", id),
        published: Timestamp::new(secs, 0),
        deleted: false,
        removed: false,
    }
}

fn comment_view(id: i32, secs: i64) -> CommentView {
    CommentView { comment: comment(id, secs, "text"), creator: person(1), post: post(1, "p") }
}

fn community(id: i32) -> Community {
    Community { id, name: format!("c{}", id), local: true, actor_domain: None }
}

fn site_data(auth: Option<&str>) -> SiteData {
    SiteData {
        site: Site {
            name: "Forum".to_string(),
            description: None,
            actor_scheme: "https".to_string(),
            actor_domain: Some("example.com".to_string()),
            site_setup: true,
            legal_information: Some("imprint".to_string()),
            my_user: Some(LocalUser { person: person(2), interface_language: "en".to_string() }),
        },
        notifications: vec![],
        unread_pm_count: 0,
        current_date_time: String::new(),
        auth: auth.map(|a| Sensitive::new(a.to_string())),
        lang: "en".to_string(),
        lemmybb_version: String::new(),
    }
}

fn accept(value: &str) -> AcceptHeader {
    AcceptHeader(value.to_string())
}

fn message(id: i32, from: i32, to: i32, secs: i64, read: bool) -> PrivateMessageView {
    PrivateMessageView {
        private_message: PrivateMessage {
            id,
            content: String::new(),
            read,
            published: Timestamp::new(secs, 0),
        },
        creator: person(from),
        recipient: person(to),
    }
}

fn ids(comments: &[CommentView]) -> Vec<i32> {
    comments.iter().map(|c| c.comment.id).collect()
}

#[test]
fn session_is_read_from_the_cookie() {
    assert_eq!(auth(Some("jwt".to_string())).unwrap().expose(), "jwt");
    assert!(auth(None).is_none());
}

#[test]
fn session_cookie_is_strict() {
    let cookie = build_jwt_cookie(secret());
    assert_eq!(cookie.name, "jwt");
    assert_eq!(cookie.value.expose(), "secret");
    assert!(cookie.http_only);
    assert!(cookie.secure);
    assert_eq!(cookie.same_site, SameSite::Strict);
    assert_eq!(logged_in(Some(secret())).value.expose(), "secret");
}

#[test]
fn object_requests_are_forwarded() {
    assert!(AcceptHeader::from_request(Some("application/activity+json")).wants_object());
    assert!(!AcceptHeader::from_request(Some("text/html")).wants_object());
    assert!(!AcceptHeader::from_request(None).wants_object());
    assert_eq!(AcceptHeader::from_request(None).0, "");
    let json = accept("application/json");
    let html = accept("text/html,application/xhtml+xml");
    let backend = "http://localhost:8536";
    assert!(matches!(apub_community("main".to_string(), &json, None, backend),
        ApubStep::Forward(url) if url == "http://localhost:8536/c/main"));
    assert!(matches!(apub_community("main".to_string(), &html, None, backend),
        ApubStep::Lookup(ApiCall::GetCommunity { name: Some(name), id: None, auth: None }) if name == "main"));
    assert!(matches!(apub_user("ann".to_string(), &json, None, backend),
        ApubStep::Forward(url) if url == "http://localhost:8536/u/ann"));
    assert!(matches!(apub_user("ann".to_string(), &html, Some(secret()), backend),
        ApubStep::Lookup(ApiCall::GetPersonDetails { username: Some(name), person_id: None, auth: Some(_) }) if name == "ann"));
    assert!(matches!(apub_post(5, &json, backend),
        ApubStep::Forward(url) if url == "http://localhost:8536/post/5"));
    assert!(matches!(apub_post(5, &html, backend),
        ApubStep::Redirect(page) if page == "/view_topic?t=5&page=1"));
    assert!(matches!(apub_comment(6, &json, None, backend),
        ApubStep::Forward(url) if url == "http://localhost:8536/comment/6"));
    assert!(matches!(apub_comment(6, &html, None, backend),
        ApubStep::Lookup(ApiCall::GetComment { id: 6, auth: None })));
}

#[test]
fn redirects_and_backend_addresses() {
    assert_eq!(redirect_apub_community(3), "/view_forum?f=3&page=1");
    assert_eq!(redirect_apub_user(4), "/view_profile?u=4");
    assert_eq!(redirect_apub_post(5), "/view_topic?t=5&page=1");
    assert_eq!(redirect_apub_comment(5, 77), "/view_topic?t=5&page=1#p77");
    assert_eq!(sent_redirect(8), "/private_messages_thread?u=8");
    assert_eq!(backend_url("http://b", "/x/", "y"), "http://b/x/y");
    assert_eq!(inboxes("http://b", "c/main/inbox"), "http://b/c/main/inbox");
    assert_eq!(feeds("http://b", "all.xml"), "http://b/feeds/all.xml");
    assert_eq!(well_known("http://b", "webfinger"), "http://b/.well-known/webfinger");
    assert_eq!(node_info("http://b", "2.0.json"), "http://b/nodeinfo/2.0.json");
    assert_eq!(api_site("http://b"), "http://b/api/v3/site");
}

#[test]
fn comment_editor_needs_a_session() {
    assert!(matches!(comment_editor(Some(3), None), CommentEditorStep::Login));
    assert!(matches!(comment_editor(None, None), CommentEditorStep::Login));
    assert!(matches!(comment_editor(Some(3), Some(secret())),
        CommentEditorStep::Fetch(ApiCall::GetComment { id: 3, auth: Some(_) })));
    assert!(matches!(comment_editor(None, Some(secret())), CommentEditorStep::Render));
}

#[test]
fn comment_editor_action() {
    assert_eq!(lemmy_bb::routes::comment::render_editor(4, None, None), "/comment?t=4");
    assert_eq!(lemmy_bb::routes::comment::render_editor(4, Some(9), None), "/comment?t=4&edit=9");
    assert_eq!(lemmy_bb::routes::comment::render_editor(4, None, Some(8)), "/comment?t=4&reply=8");
    assert_eq!(lemmy_bb::routes::comment::render_editor(4, Some(9), Some(8)), "/comment?t=4&edit=9&reply=8");
    assert_eq!(editor_title("Forum"), "Post a reply - Forum");
}

#[test]
fn newest_comments_come_first() {
    let all: Vec<CommentView> = (1..=25).map(|i| comment_view(i, i as i64)).collect();
    let newest = newest_comments(&all);
    assert_eq!(ids(&newest), (6..=25).rev().collect::<Vec<i32>>());
    let few: Vec<CommentView> = (1..=3).map(|i| comment_view(i, i as i64)).collect();
    assert_eq!(ids(&newest_comments(&few)), vec![3, 2, 1]);
    assert!(newest_comments(&Vec::new()).is_empty());
}

#[test]
fn comment_is_previewed_changed_or_made() {
    let form = |preview: bool| CommentForm {
        message: "nice :)".to_string(),
        preview: if preview { Some("Preview".to_string()) } else { None },
    };
    let text = "nice ![](https://example.com/assets/images/smilies/icon_e_smile.gif)";
    assert!(matches!(do_comment(4, None, None, form(true), &site_data(None)),
        CommentStep::Preview(message) if message == text));
    assert!(matches!(do_comment(4, Some(9), None, form(false), &site_data(Some("jwt"))),
        CommentStep::Send(ApiCall::EditComment { comment_id: 9, content, auth })
        if content == text && auth.expose() == "jwt"));
    assert!(matches!(do_comment(4, None, Some(8), form(false), &site_data(Some("jwt"))),
        CommentStep::Send(ApiCall::CreateComment { post_id: 4, content, parent_id: Some(8), auth })
        if content == text && auth.expose() == "jwt"));
}

#[test]
fn forum_subscription() {
    let token = Some(secret());
    assert!(matches!(subscription(3, Some("subscribe"), &token),
        Some(ApiCall::FollowCommunity { community_id: 3, follow: true, .. })));
    assert!(matches!(subscription(3, Some("unsubscribe"), &token),
        Some(ApiCall::FollowCommunity { community_id: 3, follow: false, .. })));
    assert!(subscription(3, Some("other"), &None).is_none());
    assert!(subscription(3, None, &None).is_none());
}

#[test]
fn forum_page_is_fetched_and_paged() {
    let (posts, community) = view_forum(3, None, None);
    assert!(matches!(posts, ApiCall::ListPosts {
        community_id: 3, sort: SortType::NewComments, limit: 20, page: 1, auth: None }));
    assert!(matches!(community, ApiCall::GetCommunity { name: None, id: Some(3), auth: None }));
    let (posts, _) = view_forum(3, Some(4), Some(secret()));
    assert!(matches!(posts, ApiCall::ListPosts { page: 4, auth: Some(_), .. }));
    let strip = forum_pagination(3, Some(2), 20);
    assert_eq!(strip.base_link().as_str(), "/viewforum?f=3&");
    assert_eq!(strip.current_page(), 2);
    assert!(!strip.is_last_page());
    assert!(forum_pagination(3, None, 4).is_last_page());
}

#[test]
fn reports_name_a_thread_or_a_reply() {
    assert_eq!(report(Some(2), None), "/do_report?thread=2");
    assert_eq!(report(None, Some(5)), "/do_report?reply=5");
    assert_eq!(report(Some(2), Some(5)), "/do_report?thread=2");
    let form = || ReportForm { report_text: "spam".to_string() };
    assert!(matches!(do_report(Some(2), None, form(), secret()),
        ApiCall::ReportPost { post_id: 2, reason, .. } if reason == "spam"));
    assert!(matches!(do_report(None, Some(5), form(), secret()),
        ApiCall::ReportComment { comment_id: 5, reason, .. } if reason == "spam"));
}

#[test]
fn removal_names_exactly_one_entry() {
    assert!(remove_item(Some(1), None).is_ok());
    assert!(remove_item(None, Some(1)).is_ok());
    assert!(matches!(remove_item(None, None), Err(ApiError::Rejected(message))
        if message == "One of params t and r needs to be set"));
    assert!(matches!(remove_item(Some(1), Some(2)), Err(ApiError::Rejected(_))));
}

#[test]
fn removal_fetches_then_removes_or_returns() {
    let form = |t: Option<i32>, r: Option<i32>, cancel: bool| RemoveItemForm {
        t,
        r,
        delete_reason: "spam".to_string(),
        cancel: if cancel { Some("Cancel".to_string()) } else { None },
    };
    assert!(matches!(do_remove_item(&form(Some(4), None, false), None),
        Ok(ApiCall::GetPost { id: 4, auth: None })));
    assert!(matches!(do_remove_item(&form(None, Some(5), false), Some(secret())),
        Ok(ApiCall::GetComment { id: 5, auth: Some(_) })));
    assert!(matches!(do_remove_item(&form(None, None, false), None), Err(ApiError::Rejected(_))));
    assert!(matches!(do_remove_item(&form(Some(1), Some(2), false), None), Err(ApiError::Rejected(_))));
    let link = || "https://example.com/post/4".to_string();
    assert!(matches!(removal(form(Some(4), None, true), link(), secret()),
        RemovalStep::Redirect(url) if url == "https://example.com/post/4"));
    assert!(matches!(removal(form(Some(4), None, false), link(), secret()),
        RemovalStep::Remove(ApiCall::RemovePost { post_id: 4, removed: true, reason, .. }) if reason == "spam"));
    assert!(matches!(removal(form(None, Some(5), false), link(), secret()),
        RemovalStep::Remove(ApiCall::RemoveComment { comment_id: 5, removed: true, reason, .. }) if reason == "spam"));
}

#[test]
fn comment_excerpt_is_one_short_line() {
    assert_eq!(comment_excerpt("one\ntwo"), "one two");
    let long = "x".repeat(100);
    assert_eq!(comment_excerpt(&long), long);
    let longer = "ä".repeat(101);
    assert_eq!(comment_excerpt(&longer), format!("{}...", "ä".repeat(100)));
}

#[test]
fn mod_log_lists_removals_newest_first() {
    let posts = vec![
        ModRemovePostView {
            removed: Some(true),
            reason: Some("spam".to_string()),
            when_: Timestamp::new(10, 0),
            post: post(1, "Bad post"),
            community: community(3),
        },
        ModRemovePostView {
            removed: Some(false),
            reason: None,
            when_: Timestamp::new(30, 0),
            post: post(2, "Good post"),
            community: community(3),
        },
    ];
    let comments = vec![ModRemoveCommentView {
        removed: Some(true),
        reason: None,
        when_: Timestamp::new(20, 0),
        comment: comment(7, 0, "first line\nsecond line"),
        community: community(4),
    }];
    let entries = mod_log(posts, comments);
    let times: Vec<i64> = entries.iter().map(|e| e.when.secs).collect();
    assert_eq!(times, vec![30, 20, 10]);
    assert_eq!(
        entries[0].message,
        "<p>Restored post <a href=\"https://example.com/post/2\">Good post</a></p>\n"
    );
    assert_eq!(
        entries[1].message,
        "<p>Removed comment <a href=\"https://example.com/comment/7\">first line second line</a></p>\n"
    );
    assert_eq!(
        entries[2].message,
        "<p>Removed post <a href=\"https://example.com/post/1\">Bad post</a></p>\n"
    );
    assert_eq!(entries[2].reason.as_deref(), Some("spam"));
    assert_eq!(entries[1].community.as_ref().unwrap().id, 4);
    assert!(mod_log(vec![], vec![]).is_empty());
}

#[test]
fn thread_is_cut_into_pages() {
    let all: Vec<CommentView> = (1..=45).map(|i| comment_view(i, i as i64)).collect();
    assert_eq!(ids(&page_comments(&all, None)), (1..=20).collect::<Vec<i32>>());
    assert_eq!(ids(&page_comments(&all, Some(2))), (21..=40).collect::<Vec<i32>>());
    assert_eq!(ids(&page_comments(&all, Some(3))), (41..=45).collect::<Vec<i32>>());
    assert!(page_comments(&all, Some(4)).is_empty());
    assert!(page_comments(&all, Some(0)).is_empty());
    assert!(page_comments(&all, Some(-3)).is_empty());
    assert!(page_comments(&all, Some(i32::MAX)).is_empty());
    assert!(page_comments(&all, Some(i32::MIN)).is_empty());
}

#[test]
fn thread_page_shows_visible_comments_and_its_strip() {
    let mut comments: Vec<CommentView> = (1..=45).rev().map(|i| comment_view(i, i as i64)).collect();
    comments[0].comment.deleted = true;
    comments[1].comment.removed = true;
    let topic = view_topic(9, Some(2), comments);
    assert_eq!(ids(&topic.all_comments), (1..=43).collect::<Vec<i32>>());
    assert_eq!(ids(&topic.comments), (21..=40).collect::<Vec<i32>>());
    assert_eq!(topic.pagination.base_link().as_str(), "/viewtopic?t=9&");
    assert_eq!(topic.pagination.current_page(), 2);
    assert_eq!(topic.pagination.last_page(), 3);
    assert!(topic.pagination.has_known_limit());
    assert!(!topic.pagination.is_last_page());
    assert!(topic.pagination.after_pages().is_empty());
    let topic = view_topic(9, None, (1..=40).map(|i| comment_view(i, 0)).collect());
    assert_eq!(topic.pagination.last_page(), 2);
    let topic = view_topic(9, None, vec![]);
    assert_eq!(topic.pagination.last_page(), 0);
    assert!(topic.comments.is_empty());
}

#[test]
fn picture_links_are_known_by_their_content_type() {
    assert!(is_image_url("image/png"));
    assert!(is_image_url("image/"));
    assert!(!is_image_url("text/html"));
    assert!(!is_image_url("Image/png"));
    assert!(!is_image_url(""));
}

#[test]
fn post_editor_fetches_the_post_to_change() {
    assert!(matches!(post_editor(Some(5), None), PostEditorStep::Fetch(ApiCall::GetPost { id: 5, auth: None })));
    assert!(matches!(post_editor(None, None), PostEditorStep::Render));
    let mut changed = post(5, "Title");
    assert_eq!(post_texts(&changed), ("Title".to_string(), String::new()));
    changed.body = Some("text".to_string());
    assert_eq!(post_texts(&changed), ("Title".to_string(), "text".to_string()));
    assert_eq!(lemmy_bb::routes::post::render_editor(3, None), "/post?f=3");
    assert_eq!(lemmy_bb::routes::post::render_editor(3, Some(5)), "/post?f=3&edit=5");
}

#[test]
fn post_is_previewed_changed_or_made() {
    let form = |preview: bool| PostForm {
        subject: "Title".to_string(),
        message: "fine :D".to_string(),
        preview: if preview { Some("Preview".to_string()) } else { None },
    };
    let text = "fine ![](https://example.com/assets/images/smilies/icon_e_biggrin.gif)";
    assert!(matches!(do_post(3, None, form(true), &site_data(None)),
        PostStep::Preview { subject, message } if subject == "Title" && message == text));
    assert!(matches!(do_post(3, None, form(false), &site_data(Some("jwt"))),
        PostStep::Send(ApiCall::CreatePost { name, body, community_id: 3, auth })
        if name == "Title" && body == text && auth.expose() == "jwt"));
    assert!(matches!(do_post(3, Some(5), form(false), &site_data(Some("jwt"))),
        PostStep::Send(ApiCall::EditPost { post_id: 5, name, body, auth })
        if name == "Title" && body == text && auth.expose() == "jwt"));
}

#[test]
fn private_messages_are_grouped_by_the_other_user() {
    let me = 2;
    let messages = vec![
        message(1, 3, me, 10, true),
        message(2, me, 3, 50, false),
        message(3, 4, me, 30, false),
        message(4, 3, me, 20, true),
        message(5, me, 5, 40, false),
        message(6, 4, me, 5, true),
    ];
    let grouped = group_by_participant(&messages, me);
    let summary: Vec<(i32, bool, i64)> =
        grouped.iter().map(|t| (t.other_participant.id, t.read, t.last_message.secs)).collect();
    assert_eq!(summary, vec![(3, true, 50), (4, false, 30), (5, true, 40)]);
    let threads = private_messages_list(&messages, me);
    let summary: Vec<(i32, bool, i64)> =
        threads.iter().map(|t| (t.other_participant.id, t.read, t.last_message.secs)).collect();
    assert_eq!(summary, vec![(3, true, 50), (5, true, 40), (4, false, 30)]);
    assert!(private_messages_list(&Vec::new(), me).is_empty());
}

#[test]
fn conversation_is_shown_oldest_first_and_marked_as_read() {
    let me = 2;
    let messages = vec![
        message(1, 3, me, 30, false),
        message(2, me, 3, 20, false),
        message(3, 4, me, 10, false),
        message(4, 3, me, 5, true),
        message(5, 3, me, 40, false),
    ];
    let thread = private_messages_thread(3, messages);
    let order: Vec<i32> = thread.iter().map(|m| m.private_message.id).collect();
    assert_eq!(order, vec![4, 2, 1, 5]);
    let calls = mark_read_calls(&thread, me, &secret());
    assert_eq!(calls.len(), 2);
    assert!(matches!(&calls[0], ApiCall::MarkPrivateMessageAsRead { private_message_id: 1, read: true, auth }
        if auth.expose() == "secret"));
    assert!(matches!(&calls[1], ApiCall::MarkPrivateMessageAsRead { private_message_id: 5, read: true, .. }));
}

#[test]
fn private_message_is_previewed_or_sent() {
    assert!(matches!(private_message_editor(7, None),
        ApiCall::GetPersonDetails { username: None, person_id: Some(7), auth: None }));
    let form = |preview: bool| PrivateMessageForm {
        message: "hi ;)".to_string(),
        preview: if preview { Some("Preview".to_string()) } else { None },
    };
    let text = "hi ![](https://example.com/assets/images/smilies/icon_e_wink.gif)";
    assert!(matches!(do_send_private_message(7, form(true), &site_data(None)),
        SendStep::Preview(message) if message == text));
    assert!(matches!(do_send_private_message(7, form(false), &site_data(Some("jwt"))),
        SendStep::Send(ApiCall::CreatePrivateMessage { content, recipient_id: 7, auth })
        if content == text && auth.expose() == "jwt"));
}

#[test]
fn front_page_steps() {
    let mut data = site_data(None);
    assert_eq!(index(&data, &accept("text/html")), IndexStep::Categories);
    assert_eq!(index(&data, &accept("application/activity+json")), IndexStep::Forward);
    data.site.site_setup = false;
    assert_eq!(index(&data, &accept("application/activity+json")), IndexStep::Setup);
    assert_eq!(index(&data, &accept("")), IndexStep::Setup);
    assert_eq!(index_fallback(), "/community_list");
    assert_eq!(legal(&site_data(None)).as_deref(), Some("imprint"));
}

#[test]
fn community_list_is_of_the_kind_that_is_named() {
    assert!(matches!(community_list(None, None, None),
        Ok(ApiCall::ListCommunities { listing_type: ListingType::All, sort: SortType::NewComments, page: None, limit: 20, auth: None })));
    assert!(matches!(community_list(Some("All"), Some(2), None),
        Ok(ApiCall::ListCommunities { listing_type: ListingType::All, page: Some(2), .. })));
    assert!(matches!(community_list(Some("Local"), None, None),
        Ok(ApiCall::ListCommunities { listing_type: ListingType::Local, .. })));
    assert!(matches!(community_list(Some("Subscribed"), None, Some(secret())),
        Ok(ApiCall::ListCommunities { listing_type: ListingType::Subscribed, auth: Some(_), .. })));
    for name in ["local", "ALL", "Community", "", " All", "All "] {
        assert!(matches!(community_list(Some(name), None, None), Err(ApiError::Rejected(message))
            if message == "Matching variant not found"), "{:?}", name);
    }
}

#[test]
fn communities_are_ordered_by_number() {
    let communities: Vec<CommunityView> =
        [5, 2, 9, 1].iter().map(|id| CommunityView { community: community(*id) }).collect();
    let ordered = order_communities(communities);
    assert_eq!(ordered.iter().map(|c| c.community.id).collect::<Vec<_>>(), vec![1, 2, 5, 9]);
    let strip = community_pagination(None, 20);
    assert_eq!(strip.base_link().as_str(), "/community_list??");
    assert_eq!(strip.current_page(), 1);
    assert!(!strip.is_last_page());
}

#[test]
fn setup_registers_then_creates_the_site() {
    let form = SetupForm {
        username: "admin".to_string(),
        password: "pw".to_string(),
        password_verify: "pw".to_string(),
        show_nsfw: true,
        email: Some("admin@example.com".to_string()),
        site_name: "Forum".to_string(),
        site_description: Some("about".to_string()),
    };
    match do_setup(&form) {
        ApiCall::Register(params) => {
            assert_eq!(params.username, "admin");
            assert_eq!(params.password.expose(), "pw");
            assert_eq!(params.password_verify.expose(), "pw");
            assert!(params.show_nsfw);
            assert!(params.email.is_none());
            assert!(params.captcha_uuid.is_none());
            assert!(params.answer.is_none());
        }
        _ => panic!("wrong call"),
    }
    assert!(matches!(setup_site(form, secret()),
        ApiCall::CreateSite { name, description: Some(about), auth }
        if name == "Forum" && about == "about" && auth.expose() == "secret"));
}

#[test]
fn login_and_titles() {
    assert_eq!(login_title("Forum"), "Login - Forum");
    assert_eq!(register_title("Forum"), "Register - Forum");
    let form = LoginForm { username: "ann".to_string(), password: "pw".to_string() };
    assert!(matches!(do_login(&form), ApiCall::Login { username_or_email, password }
        if username_or_email.expose() == "ann" && password.expose() == "pw"));
    assert_eq!(view_profile(&person(3)), "Viewing profile - user3");
    let mut named = person(3);
    named.display_name = Some("Ann".to_string());
    assert_eq!(view_profile(&named), "Viewing profile - Ann");
}

#[test]
fn registration_form_is_normalized() {
    let form = |refresh: bool| RegisterForm {
        username: "ann".to_string(),
        password: "pw".to_string(),
        password_verify: "pw".to_string(),
        show_nsfw: false,
        email: Some(String::new()),
        captcha_uuid: Some(String::new()),
        captcha_answer: Some(String::new()),
        honeypot: Some(String::new()),
        application_answer: Some("because".to_string()),
        refresh_captcha: if refresh { Some("refresh".to_string()) } else { None },
    };
    assert!(matches!(do_register(form(true)), RegisterStep::ReloadCaptcha));
    match do_register(form(false)) {
        RegisterStep::Register(ApiCall::Register(params)) => {
            assert!(params.email.is_none());
            assert_eq!(params.captcha_uuid.as_deref(), Some(""));
            assert!(params.captcha_answer.is_none());
            assert!(params.honeypot.is_none());
            assert_eq!(params.answer.as_deref(), Some("because"));
        }
        _ => panic!("the form is sent on"),
    }
    assert_eq!(non_empty(Some(String::new())), None);
    assert_eq!(non_empty(Some(" ".to_string())), Some(" ".to_string()));
    assert_eq!(non_empty(None), None);
}

#[test]
fn registration_outcomes() {
    assert!(matches!(registered(Some(secret()), true), Registered::LoggedIn(cookie)
        if cookie.value.expose() == "secret" && cookie.name == "jwt"));
    assert!(matches!(registered(None, true), Registered::Message(key) if key == "registration_confirm_email"));
    assert!(matches!(registered(None, false), Registered::Message(key) if key == "registration_admin_approval"));
}

#[test]
fn profile_settings() {
    let form = EditProfileForm {
        displayname: "Ann".to_string(),
        language: "  ".to_string(),
        message: "my signature".to_string(),
        avatar_delete: true,
        email: String::new(),
        new_password: "new".to_string(),
        confirm_password: "new".to_string(),
        cur_password: String::new(),
    };
    let params = edit_settings(&form, None, secret());
    assert_eq!(params.display_name.as_deref(), Some("Ann"));
    assert!(params.interface_language.is_none());
    assert_eq!(params.bio.as_deref(), Some("my signature"));
    assert!(params.email.is_none());
    assert_eq!(params.avatar.as_deref(), Some(""));
    assert_eq!(params.auth.expose(), "secret");
    let params = edit_settings(&form, Some("https://example.com/pictrs/image/a.png".to_string()), secret());
    assert_eq!(params.avatar.as_deref(), Some("https://example.com/pictrs/image/a.png"));
    assert!(password_change(&form, secret()).is_none());
    let complete = EditProfileForm { cur_password: "old".to_string(), avatar_delete: false, ..form };
    assert!(edit_settings(&complete, None, secret()).avatar.is_none());
    let change = password_change(&complete, secret()).unwrap();
    assert_eq!(change.new_password.expose(), "new");
    assert_eq!(change.new_password_verify.expose(), "new");
    assert_eq!(change.old_password.expose(), "old");
    assert!(has_upload(1));
    assert!(!has_upload(0));
    assert_eq!(
        edit_profile("Browser default".to_string()),
        vec![
            ("en".to_string(), "English".to_string()),
            ("de".to_string(), "Deutsch".to_string()),
            ("browser".to_string(), "Browser default".to_string()),
        ]
    );
}

#[test]
fn pages_are_what_skip_and_take_give() {
    for len in [0usize, 1, 19, 20, 21, 40, 45, 61] {
        let all: Vec<CommentView> = (0..len as i32).map(|i| comment_view(i, i as i64)).collect();
        for page in -2..6 {
            let skipped = ((page - 1) * 20) as usize;
            let expected: Vec<i32> =
                all.iter().skip(skipped).take(20).map(|c| c.comment.id).collect();
            assert_eq!(ids(&page_comments(&all, Some(page))), expected, "{} {}", len, page);
        }
        let expected: Vec<i32> = all.iter().rev().take(20).map(|c| c.comment.id).collect();
        assert_eq!(ids(&newest_comments(&all)), expected);
        let topic = view_topic(1, None, all);
        assert_eq!(topic.pagination.last_page(), (len as f32 / 20.0).ceil() as i32);
    }
}

#[test]
fn excerpts_are_cut_by_characters() {
    for content in ["", "short", "a\nb\nc", "x\n", &"é\n".repeat(70), &"y".repeat(300)] {
        let mut expected = content.replace('\n', " ");
        if expected.chars().count() > 100 {
            expected = format!("{}...", expected.chars().take(100).collect::<String>());
        }
        assert_eq!(comment_excerpt(content), expected);
    }
}

#[test]
fn overview_sums_up_each_conversation() {
    let me = 1;
    let mut seed: u64 = 99;
    for round in 0..30 {
        let mut messages = Vec::new();
        for id in 0..round {
            seed = seed.wrapping_mul(6364136223846793005).wrapping_add(1442695040888963407);
            let other = 2 + ((seed >> 33) % 4) as i32;
            let incoming = (seed >> 40) % 2 == 0;
            let read = (seed >> 41) % 3 != 0;
            let secs = ((seed >> 45) % 50) as i64;
            let (from, to) = if incoming { (other, me) } else { (me, other) };
            messages.push(message(id, from, to, secs, read));
        }
        let threads = private_messages_list(&messages, me);
        let mut expected: std::collections::BTreeMap<i32, (bool, i64)> = Default::default();
        for m in &messages {
            let other = if m.creator.id != me { m.creator.id } else { m.recipient.id };
            let entry = expected.entry(other).or_insert((true, i64::MIN));
            if m.creator.id != me && !m.private_message.read {
                entry.0 = false;
            }
            entry.1 = entry.1.max(m.private_message.published.secs);
        }
        assert_eq!(threads.len(), expected.len());
        for thread in &threads {
            assert_eq!(
                expected.get(&thread.other_participant.id),
                Some(&(thread.read, thread.last_message.secs))
            );
        }
        for pair in threads.windows(2) {
            assert!(pair[0].last_message.secs >= pair[1].last_message.secs);
        }
    }
}

fn profile_form(new_password: &str) -> EditProfileForm {
    EditProfileForm {
        displayname: "Ann".to_string(),
        language: "de".to_string(),
        message: String::new(),
        avatar_delete: true,
        email: "ann@example.com".to_string(),
        new_password: new_password.to_string(),
        confirm_password: new_password.to_string(),
        cur_password: "old".to_string(),
    }
}

#[test]
fn profile_is_saved_with_its_picture_and_the_new_password() {
    let begin = EditProfileEvent::Begin { form: profile_form("new"), file_len: 42, auth: secret() };
    let (state, action) = do_edit_profile(EditProfileState::Start, begin);
    assert!(matches!(state, EditProfileState::Uploading { .. }));
    assert!(matches!(action, EditProfileAction::Upload));
    let uploaded = EditProfileEvent::Uploaded(Ok("https://example.com/pictrs/image/a.png".to_string()));
    let (state, action) = do_edit_profile(state, uploaded);
    match action {
        EditProfileAction::Call(ApiCall::SaveUserSettings(params)) => {
            assert_eq!(params.avatar.as_deref(), Some("https://example.com/pictrs/image/a.png"));
            assert_eq!(params.display_name.as_deref(), Some("Ann"));
            assert_eq!(params.interface_language.as_deref(), Some("de"));
            assert_eq!(params.email.unwrap().expose(), "ann@example.com");
            assert!(params.bio.is_none());
            assert_eq!(params.auth.expose(), "secret");
        }
        _ => panic!("the settings are to be saved"),
    }
    let (state, action) = do_edit_profile(state, EditProfileEvent::Saved(Ok(())));
    assert!(matches!(state, EditProfileState::ChangingPassword));
    assert!(matches!(action, EditProfileAction::Call(ApiCall::ChangePassword(params))
        if params.new_password.expose() == "new" && params.old_password.expose() == "old"
            && params.new_password_verify.expose() == "new" && params.auth.expose() == "secret"));
    let (state, action) = do_edit_profile(state, EditProfileEvent::PasswordChanged(Ok(())));
    assert!(matches!(state, EditProfileState::Finished));
    assert!(matches!(action, EditProfileAction::Done));
}

#[test]
fn profile_without_picture_and_password_is_saved_at_once() {
    let begin = EditProfileEvent::Begin { form: profile_form(""), file_len: 0, auth: secret() };
    let (state, action) = do_edit_profile(EditProfileState::Start, begin);
    assert!(matches!(action, EditProfileAction::Call(ApiCall::SaveUserSettings(params))
        if params.avatar.as_deref() == Some("")));
    let (state, action) = do_edit_profile(state, EditProfileEvent::Saved(Ok(())));
    assert!(matches!(state, EditProfileState::Finished));
    assert!(matches!(action, EditProfileAction::Done));
}

#[test]
fn profile_fails_where_a_step_fails() {
    let failure = || ApiError::Upstream("incorrect_login".to_string());
    let begin = EditProfileEvent::Begin { form: profile_form("new"), file_len: 1, auth: secret() };
    let (state, _) = do_edit_profile(EditProfileState::Start, begin);
    let (state, action) = do_edit_profile(state, EditProfileEvent::Uploaded(Err(failure())));
    assert!(matches!(state, EditProfileState::Finished));
    assert!(matches!(action, EditProfileAction::Fail(ApiError::Upstream(_))));
    let begin = EditProfileEvent::Begin { form: profile_form("new"), file_len: 0, auth: secret() };
    let (state, _) = do_edit_profile(EditProfileState::Start, begin);
    let (_, action) = do_edit_profile(state, EditProfileEvent::Saved(Err(failure())));
    assert!(matches!(action, EditProfileAction::Fail(ApiError::Upstream(_))));
    let (_, action) = do_edit_profile(
        EditProfileState::ChangingPassword,
        EditProfileEvent::PasswordChanged(Err(failure())),
    );
    assert!(matches!(action, EditProfileAction::Fail(ApiError::Upstream(token)) if token == "incorrect_login"));
    let (_, action) = do_edit_profile(EditProfileState::Start, EditProfileEvent::Saved(Ok(())));
    assert!(matches!(action, EditProfileAction::Fail(ApiError::Rejected(_))));
}
