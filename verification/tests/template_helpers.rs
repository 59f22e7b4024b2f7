use lemmy_bb::model::{Comment, CommentView, Community, Person, Post};
use lemmy_bb::template_helpers::{
    all_languages, comment_page, community_actor_id, fill_placeholder, has_placeholder, is_mod,
    is_mod_or_admin, markdown, position_of, render_markdown, strip_paragraphs, timestamp_human,
    timestamp_machine, user_actor_id, user_name,
};
use lemmy_bb::time::Timestamp;

fn person(id: i32, local: bool, admin: bool) -> Person {
    Person {
        id,
        name: "ann".to_string(),
        display_name: None,
        local,
        admin,
        actor_domain: Some("example.com".to_string()),
    }
}

fn comment_view(id: i32) -> CommentView {
    CommentView {
        comment: Comment {
            id,
            creator_id: 1,
            content: String::new(),
            ap_id: String::new(),
            published: Timestamp::new(0, 0),
            deleted: false,
            removed: false,
        },
        creator: person(1, true, false),
        post: Post {
            id: 1,
            name: String::new(),
            body: None,
            url: None,
            ap_id: String::new(),
            published: Timestamp::new(0, 0),
            deleted: false,
            removed: false,
        },
    }
}

#[test]
fn time_for_visitors() {
    assert_eq!(
        timestamp_human(Timestamp::new(1664997420, 0)).as_deref(),
        Some("Wed  5-Oct-2022 19:17")
    );
    assert_eq!(timestamp_human(Timestamp::new(0, 0)).as_deref(), Some("Thu  1-Jan-1970 00:00"));
}

#[test]
fn time_for_programs() {
    assert_eq!(
        timestamp_machine(Timestamp::new(1664997420, 0)).as_deref(),
        Some("2022-10-05T19:17:00+00:00")
    );
    assert_eq!(
        timestamp_machine(Timestamp::new(1664997420, 123_000_000)).as_deref(),
        Some("2022-10-05T19:17:00.123+00:00")
    );
}

#[test]
fn time_out_of_range_is_not_written() {
    assert_eq!(timestamp_human(Timestamp::new(i64::MAX, 0)), None);
    assert_eq!(timestamp_machine(Timestamp::new(i64::MIN, 0)), None);
    assert_eq!(timestamp_machine(Timestamp::new(0, 2_000_000_000)), None);
}

#[test]
fn page_of_a_comment() {
    let comments: Vec<CommentView> = (100..150).map(comment_view).collect();
    assert_eq!(position_of(100, &comments), Some(0));
    assert_eq!(position_of(149, &comments), Some(49));
    assert_eq!(position_of(99, &comments), None);
    assert_eq!(comment_page(100, &comments), 0);
    assert_eq!(comment_page(101, &comments), 1);
    assert_eq!(comment_page(120, &comments), 1);
    assert_eq!(comment_page(121, &comments), 2);
    assert_eq!(comment_page(140, &comments), 2);
    assert_eq!(comment_page(141, &comments), 3);
    assert_eq!(comment_page(7, &comments), -1);
    assert_eq!(comment_page(7, &Vec::new()), -1);
    for (index, view) in comments.iter().enumerate() {
        let expected = (index as f32 / 20.0).ceil() as i32;
        assert_eq!(comment_page(view.comment.id, &comments), expected);
    }
}

#[test]
fn markdown_becomes_html() {
    assert_eq!(render_markdown("**hi**"), "<p><strong>hi</strong></p>\n");
    assert_eq!(render_markdown("https://example.com"), "<p>https://example.com</p>\n");
    assert_eq!(markdown(Some("**hi**".to_string())), "<strong>hi</strong>\n");
    assert_eq!(markdown(Some("one\n\ntwo".to_string())), "one<br /><br />two\n");
    assert_eq!(
        markdown(Some("https://example.com".to_string())),
        "<a href=\"https://example.com\">https://example.com</a>\n"
    );
    assert_eq!(markdown(None), "");
}

#[test]
fn paragraph_tags_are_taken_out() {
    assert_eq!(strip_paragraphs("<p>a</p>\n<p>b</p>\n"), "a<br /><br />b\n");
    assert_eq!(strip_paragraphs("<p>a</p>"), "a");
    assert_eq!(strip_paragraphs("no tags"), "no tags");
}

#[test]
fn addresses_of_actors() {
    let local = Community { id: 1, name: "main".to_string(), local: true, actor_domain: None };
    assert_eq!(community_actor_id(&local), "!main");
    let remote = Community {
        id: 2,
        name: "main".to_string(),
        local: false,
        actor_domain: Some("other.example".to_string()),
    };
    assert_eq!(community_actor_id(&remote), "!main@other.example");
    assert_eq!(user_actor_id(&person(1, true, false)), "@ann");
    assert_eq!(user_actor_id(&person(1, false, false)), "@ann@example.com");
}

#[test]
fn shown_name_prefers_the_display_name() {
    assert_eq!(user_name(person(1, true, false)), "ann");
    let mut named = person(1, true, false);
    named.display_name = Some("Ann B.".to_string());
    assert_eq!(user_name(named), "Ann B.");
}

#[test]
fn moderators_and_administrators() {
    let moderators = vec![person(2, true, false), person(3, true, false)];
    assert!(is_mod(&person(3, true, false), &moderators));
    assert!(!is_mod(&person(4, true, true), &moderators));
    assert!(!is_mod(&person(3, true, false), &Vec::new()));
    assert!(is_mod_or_admin(&person(4, true, true), &moderators));
    assert!(is_mod_or_admin(&person(2, true, false), &moderators));
    assert!(!is_mod_or_admin(&person(4, true, false), &moderators));
}

#[test]
fn placeholders_are_filled_once() {
    assert_eq!(fill_placeholder("Hello {}!".to_string(), "Ann"), "Hello Ann!");
    assert_eq!(fill_placeholder("{} and {}".to_string(), "x"), "x and {}");
    assert_eq!(fill_placeholder("nothing".to_string(), "x"), "nothing");
    assert!(has_placeholder("Hello {}!"));
    assert!(!has_placeholder("Hello { }!"));
}

#[test]
fn languages_of_the_front_end() {
    assert_eq!(all_languages(), vec![("en", "English"), ("de", "Deutsch")]);
}
