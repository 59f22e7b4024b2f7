//! What the page templates compute: times as text, markdown as HTML, the
//! page a comment stands on, the addresses and names of users and
//! communities, and translated texts with their placeholders filled in.

use crate::model::{CommentView, Community, Person};
use crate::text::{concat, contains, occurs_in, replace, replace_all, replace_first, replace_once};
use crate::time::Timestamp;
use std::fmt::Write;
use vstd::prelude::*;

verus! {

/// What `chrono` writes for the point in time `secs` seconds and `nanos`
/// nanoseconds after the Unix epoch, in UTC, under the `strftime` pattern
/// `format`; `None` where it knows no such point in time (the point lies
/// outside the years that it represents, or the nanoseconds are more than a
/// second holds), or where the pattern cannot be written.
pub uninterp spec fn chrono_format(secs: int, nanos: int, format: Seq<char>) -> Option<Seq<char>>;

/// `chrono::NaiveDateTime::format`, on the time that
/// `chrono::DateTime::from_timestamp` makes of the seconds and nanoseconds:
/// the text depends on the three arguments alone.
#[verifier::external_body]
fn format_timestamp(secs: i64, nanos: u32, format: &str) -> (text: Option<String>)
    ensures
        match text {
            Some(text) => chrono_format(secs as int, nanos as int, format@) == Some(text@),
            None => chrono_format(secs as int, nanos as int, format@) is None,
        },
{
    let time = chrono::DateTime::from_timestamp(secs, nanos)?.naive_utc();
    let mut text = String::new();
    write!(text, "{}", time.format(format)).ok()?;
    Some(text)
}

/// The pattern of a time as programs read it.
pub open spec fn machine_pattern() -> Seq<char> {
    "%Y-%m-%dT%H:%M:%S%.f+00:00"@
}

/// The pattern of a time as visitors read it, such as `Wed  5-Oct-2022 19:17`.
pub open spec fn human_pattern() -> Seq<char> {
    "%a %v %R"@
}

/// Writes a time as programs read it; `None` where the time is one that
/// cannot be written.
pub fn timestamp_machine(ts: Timestamp) -> (text: Option<String>)
    ensures
        match text {
            Some(text) => chrono_format(ts.secs as int, ts.nanos as int, machine_pattern())
                == Some(text@),
            None => chrono_format(ts.secs as int, ts.nanos as int, machine_pattern()) is None,
        },
{
    format_timestamp(ts.secs, ts.nanos, "%Y-%m-%dT%H:%M:%S%.f+00:00")
}

/// Writes a time as visitors read it; `None` where the time is one that
/// cannot be written.
pub fn timestamp_human(ts: Timestamp) -> (text: Option<String>)
    ensures
        match text {
            Some(text) => chrono_format(ts.secs as int, ts.nanos as int, human_pattern()) == Some(
                text@,
            ),
            None => chrono_format(ts.secs as int, ts.nanos as int, human_pattern()) is None,
        },
{
    format_timestamp(ts.secs, ts.nanos, "%a %v %R")
}

/// Whether `comments[at]` is the first comment with the number `comment_id`.
pub open spec fn is_position_of(comments: Seq<CommentView>, comment_id: i32, at: int) -> bool {
    &&& 0 <= at < comments.len()
    &&& comments[at].comment.id == comment_id
    &&& forall|j: int| 0 <= j < at ==> (#[trigger] comments[j]).comment.id != comment_id
}

/// The index of the first comment with the number `comment_id`, if there is one.
pub open spec fn first_position(comments: Seq<CommentView>, comment_id: i32) -> Option<int> {
    if exists|at: int| is_position_of(comments, comment_id, at) {
        Some(choose|at: int| is_position_of(comments, comment_id, at))
    } else {
        None
    }
}

/// The page of a thread on which its comment at index `at` stands, counted
/// as the templates count it: `at` divided by the number of comments on a
/// page, rounded up.
pub open spec fn page_of_position(at: int) -> int {
    (at + 19) / 20
}

/// Finds the first comment with the number `comment_id`.
pub fn position_of(comment_id: i32, comments: &Vec<CommentView>) -> (found: Option<usize>)
    ensures
        match found {
            Some(at) => first_position(comments@, comment_id) == Some(at as int),
            None => first_position(comments@, comment_id) is None,
        },
{
    let mut i: usize = 0;
    while i < comments.len()
        invariant
            i <= comments.len(),
            forall|j: int| 0 <= j < i ==> (#[trigger] comments@[j]).comment.id != comment_id,
        decreases comments.len() - i,
    {
        if comments[i].comment.id == comment_id {
            proof {
                assert(is_position_of(comments@, comment_id, i as int));
                let chosen = choose|at: int| is_position_of(comments@, comment_id, at);
                if chosen < i {
                    assert(comments@[chosen].comment.id != comment_id);
                }
                if i < chosen {
                    assert(comments@[i as int].comment.id != comment_id);
                }
            }
            return Some(i);
        }
        i += 1;
    }
    assert forall|at: int| !is_position_of(comments@, comment_id, at) by {
        if 0 <= at < comments@.len() {
            assert(comments@[at].comment.id != comment_id);
        }
    }
    None
}

/// The page of a thread on which the comment with number `comment_id`
/// stands, given the thread's comments in the order in which they are
/// shown; -1 where the thread does not hold the comment.
pub fn comment_page(comment_id: i32, comments: &Vec<CommentView>) -> (page: i32)
    requires
        comments@.len() <= i32::MAX,
    ensures
        page == match first_position(comments@, comment_id) {
            Some(at) => page_of_position(at),
            None => -1,
        },
{
    match position_of(comment_id, comments) {
        Some(at) => ((at + 19) / 20) as i32,
        None => -1,
    }
}

/// The HTML that `comrak` makes of the markdown `markdown`, with its default
/// options but for `autolink`, which says whether bare addresses become links.
pub uninterp spec fn comrak_html(markdown: Seq<char>, autolink: bool) -> Seq<char>;

/// `comrak::markdown_to_html`, with the default options but for the
/// `autolink` extension: the HTML depends on the two arguments alone.
#[verifier::external_body]
fn markdown_to_html(markdown: &str, autolink: bool) -> (html: String)
    ensures
        html@ == comrak_html(markdown@, autolink),
{
    let mut options = comrak::Options::default();
    options.extension.autolink = autolink;
    comrak::markdown_to_html(markdown, &options)
}

/// Renders markdown with the default options.
pub fn render_markdown(markdown: &str) -> (html: String)
    ensures
        html@ == comrak_html(markdown@, false),
{
    markdown_to_html(markdown, false)
}

/// `html` with the break between two paragraphs turned into two line
/// breaks, and every other paragraph tag taken out.
pub open spec fn without_paragraphs(html: Seq<char>) -> Seq<char> {
    replace_all(
        replace_all(replace_all(html, "</p>\n<p>"@, "<br /><br />"@), "<p>"@, Seq::empty()),
        "</p>"@,
        Seq::empty(),
    )
}

/// Takes the paragraph tags out of rendered markdown, so that the text is not
/// set larger than the text around it.
pub fn strip_paragraphs(html: &str) -> (stripped: String)
    ensures
        stripped@ == without_paragraphs(html@),
{
    proof {
        reveal_strlit("");
    }
    assert(""@ =~= Seq::<char>::empty());
    let joined = replace(html, "</p>\n<p>", "<br /><br />");
    let opened = replace(joined.as_str(), "<p>", "");
    replace(opened.as_str(), "</p>", "")
}

/// Turns the markdown of an entry into the HTML that a page shows: bare
/// addresses become links, and the paragraph tags are taken out. No text
/// gives the empty string.
pub fn markdown(md: Option<String>) -> (html: String)
    ensures
        html@ == match md {
            Some(text) => without_paragraphs(comrak_html(text@, true)),
            None => Seq::empty(),
        },
{
    match md {
        Some(text) => {
            let html = markdown_to_html(text.as_str(), true);
            strip_paragraphs(html.as_str())
        },
        None => String::new(),
    }
}

/// The address of an actor as it is written: the mark of its kind and its
/// name, followed by `@` and its domain where it lives on another instance.
pub open spec fn actor_address(
    mark: Seq<char>,
    name: Seq<char>,
    local: bool,
    domain: Option<Seq<char>>,
) -> Seq<char> {
    if local {
        mark + name
    } else {
        mark + name + "@"@ + domain->0
    }
}

fn write_actor_address(mark: &str, name: &str, local: bool, domain: &Option<String>) -> (address:
    String)
    requires
        !local ==> domain is Some,
    ensures
        address@ == actor_address(
            mark@,
            name@,
            local,
            match domain {
                Some(domain) => Some(domain@),
                None => None,
            },
        ),
{
    let address = concat(mark, name);
    if local {
        address
    } else {
        match domain {
            Some(domain) => {
                let address = concat(address.as_str(), "@");
                concat(address.as_str(), domain.as_str())
            },
            None => address,
        }
    }
}

/// The address of a community as it is written: `!name`, or `!name@domain`
/// for a community of another instance, whose address names a domain.
pub fn community_actor_id(c: &Community) -> (address: String)
    requires
        !c.local ==> c.actor_domain is Some,
    ensures
        address@ == actor_address(
            "!"@,
            c.name@,
            c.local,
            match c.actor_domain {
                Some(domain) => Some(domain@),
                None => None,
            },
        ),
{
    write_actor_address("!", c.name.as_str(), c.local, &c.actor_domain)
}

/// The address of a user as it is written: `@name`, or `@name@domain` for a
/// user of another instance, whose address names a domain.
pub fn user_actor_id(p: &Person) -> (address: String)
    requires
        !p.local ==> p.actor_domain is Some,
    ensures
        address@ == actor_address(
            "@"@,
            p.name@,
            p.local,
            match p.actor_domain {
                Some(domain) => Some(domain@),
                None => None,
            },
        ),
{
    write_actor_address("@", p.name.as_str(), p.local, &p.actor_domain)
}

/// The name under which a user is shown: the display name where one is
/// set, else the user's name.
pub fn user_name(p: Person) -> (name: String)
    ensures
        name == match p.display_name {
            Some(display_name) => display_name,
            None => p.name,
        },
{
    match p.display_name {
        Some(display_name) => display_name,
        None => p.name,
    }
}

/// Whether one of `moderators` has the number `user_id`.
pub open spec fn moderates(moderators: Seq<Person>, user_id: i32) -> bool {
    exists|i: int| 0 <= i < moderators.len() && (#[trigger] moderators[i]).id == user_id
}

/// Decides whether `user` is one of the moderators of a community.
pub fn is_mod(user: &Person, moderators: &Vec<Person>) -> (moderator: bool)
    ensures
        moderator == moderates(moderators@, user.id),
{
    let mut i: usize = 0;
    while i < moderators.len()
        invariant
            i <= moderators.len(),
            forall|j: int| 0 <= j < i ==> (#[trigger] moderators@[j]).id != user.id,
        decreases moderators.len() - i,
    {
        if moderators[i].id == user.id {
            return true;
        }
        i += 1;
    }
    false
}

/// Decides whether `user` is an administrator of the site or one of the
/// moderators of a community.
pub fn is_mod_or_admin(user: &Person, moderators: &Vec<Person>) -> (privileged: bool)
    ensures
        privileged == (user.admin || moderates(moderators@, user.id)),
{
    user.admin || is_mod(user, moderators)
}

/// A translated text with its first placeholder `{}`, if it has one, filled
/// with `argument`.
pub open spec fn filled(text: Seq<char>, argument: Seq<char>) -> Seq<char> {
    replace_first(text, "{}"@, argument)
}

/// Fills the first placeholder of a translated text, if it has one.
pub fn fill_placeholder(text: String, argument: &str) -> (out: String)
    ensures
        out@ == filled(text@, argument@),
{
    replace_once(text.as_str(), "{}", argument)
}

/// Decides whether a translated text asks for an argument.
pub fn has_placeholder(text: &str) -> (asks: bool)
    ensures
        asks == occurs_in(text@, "{}"@),
{
    contains(text, "{}")
}

/// The languages that the front-end is translated into, each with its own name.
pub fn all_languages() -> (languages: Vec<(&'static str, &'static str)>)
    ensures
        languages@.len() == 2,
        languages@[0].0@ == "en"@ && languages@[0].1@ == "English"@,
        languages@[1].0@ == "de"@ && languages@[1].1@ == "Deutsch"@,
{
    let mut languages: Vec<(&'static str, &'static str)> = Vec::new();
    languages.push(("en", "English"));
    languages.push(("de", "Deutsch"));
    languages
}

} // verus!
