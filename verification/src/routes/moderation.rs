//! Removing entries, and the log of removals.

use crate::api::comment::get_comment;
use crate::api::moderation::{remove_comment, remove_post};
use crate::api::post::get_post;
use crate::api::{ApiCall, Sensitive};
use crate::error::ApiError;
use crate::model::{Community, ModRemoveCommentView, ModRemovePostView};
use crate::sort::{sort_by_key, stable_sort, Keyed};
use crate::vecs::reverse;
use crate::template_helpers::{comrak_html, render_markdown};
use crate::text::{concat, from_chars, replace, replace_all, to_chars};
use crate::time::Timestamp;
use vstd::prelude::*;

verus! {

/// The message with which a request is refused that names both a thread
/// and a reply, or neither.
pub open spec fn one_of_t_and_r() -> Seq<char> {
    "One of params t and r needs to be set"@
}

/// Whether exactly one of a thread and a reply is named.
pub open spec fn names_one(t: Option<i32>, r: Option<i32>) -> bool {
    (t is Some) != (r is Some)
}

fn refuse_t_and_r() -> (error: ApiError)
    ensures
        error matches ApiError::Rejected(message) && message@ == one_of_t_and_r(),
{
    ApiError::Rejected("One of params t and r needs to be set".to_owned())
}

/// Accepts a request for the removal form if it names a thread or a reply,
/// and not both.
pub fn remove_item(t: Option<i32>, r: Option<i32>) -> (accepted: Result<(), ApiError>)
    ensures
        names_one(t, r) <==> accepted is Ok,
        accepted matches Err(error) ==> (error matches ApiError::Rejected(message) && message@
            == one_of_t_and_r()),
{
    if t.is_some() == r.is_some() {
        Err(refuse_t_and_r())
    } else {
        Ok(())
    }
}

/// What the removal form sends.
pub struct RemoveItemForm {
    pub t: Option<i32>,
    pub r: Option<i32>,
    pub delete_reason: String,
    pub cancel: Option<String>,
}

/// The call that fetches the entry that a removal form names: the post of
/// the thread, or the comment of the reply. A form that names both or
/// neither is refused.
pub fn do_remove_item(form: &RemoveItemForm, auth: Option<Sensitive>) -> (call: Result<
    ApiCall,
    ApiError,
>)
    ensures
        match (form.t, form.r) {
            (Some(t), None) => call == Ok::<ApiCall, ApiError>(ApiCall::GetPost { id: t, auth }),
            (None, Some(r)) => call == Ok::<ApiCall, ApiError>(
                ApiCall::GetComment { id: r, auth },
            ),
            _ => call matches Err(ApiError::Rejected(message)) && message@ == one_of_t_and_r(),
        },
{
    match (form.t, form.r) {
        (Some(t), None) => Ok(get_post(t, auth)),
        (None, Some(r)) => Ok(get_comment(r, auth)),
        _ => Err(refuse_t_and_r()),
    }
}

/// What is done once the entry that a removal form names is fetched.
pub enum RemovalStep {
    /// The visitor cancelled: send them back to the entry, at this address.
    Redirect(String),
    /// Make this call, then tell the visitor that the entry is removed.
    Remove(ApiCall),
}

/// Decides what is done with a removal form once its entry is fetched and
/// found at `link_url`: a visitor who cancelled is sent back; else the post
/// or the comment is removed, for the reason that the form gives. The form
/// names a thread or a reply, and not both.
pub fn removal(form: RemoveItemForm, link_url: String, auth: Sensitive) -> (step: RemovalStep)
    requires
        names_one(form.t, form.r),
    ensures
        step == match (form.cancel, form.t) {
            (Some(_), _) => RemovalStep::Redirect(link_url),
            (None, Some(t)) => RemovalStep::Remove(
                ApiCall::RemovePost { post_id: t, removed: true, reason: form.delete_reason, auth },
            ),
            (None, None) => RemovalStep::Remove(
                ApiCall::RemoveComment {
                    comment_id: form.r->0,
                    removed: true,
                    reason: form.delete_reason,
                    auth,
                },
            ),
        },
{
    if form.cancel.is_some() {
        return RemovalStep::Redirect(link_url);
    }
    match (form.t, form.r) {
        (Some(t), None) => RemovalStep::Remove(remove_post(t, form.delete_reason, auth)),
        (None, Some(r)) => RemovalStep::Remove(remove_comment(r, form.delete_reason, auth)),
        _ => vstd::pervasive::unreached(),
    }
}

/// One line of the moderation log.
#[derive(Debug)]
pub struct ModLogEntry {
    pub community: Option<Community>,
    pub reason: Option<String>,
    pub when: Timestamp,
    pub message: String,
}

impl Keyed for ModLogEntry {
    open spec fn key(&self) -> int {
        self.when.instant()
    }

    fn key_lt(&self, other: &ModLogEntry) -> (smaller: bool) {
        self.when.before(&other.when)
    }
}

/// The word for what a moderator did.
pub open spec fn action_word(removed: bool) -> Seq<char> {
    if removed {
        "Removed"@
    } else {
        "Restored"@
    }
}

/// The markdown of a line of the log: what was done, to what kind of
/// entry, and the entry's `label` as a link to `address`.
pub open spec fn log_line(
    removed: bool,
    kind: Seq<char>,
    label: Seq<char>,
    address: Seq<char>,
) -> Seq<char> {
    action_word(removed) + kind + label + "]("@ + address + ")"@
}

/// The text of a comment as a line of the log shows it: on one line, and
/// cut after a hundred characters, with three dots in place of the rest.
pub open spec fn excerpt(content: Seq<char>) -> Seq<char> {
    let line = replace_all(content, "\n"@, " "@);
    if line.len() > 100 {
        line.take(100) + "..."@
    } else {
        line
    }
}

/// Cuts the text of a comment down to what a line of the log shows.
pub fn comment_excerpt(content: &str) -> (shown: String)
    ensures
        shown@ == excerpt(content@),
{
    let line = replace(content, "\n", " ");
    let chars = to_chars(line.as_str());
    if chars.len() > 100 {
        let mut head: Vec<char> = Vec::new();
        let mut i: usize = 0;
        while i < 100
            invariant
                i <= 100 < chars.len(),
                head@ == chars@.take(i as int),
            decreases 100 - i,
        {
            head.push(chars[i]);
            assert(head@ =~= chars@.take(i + 1));
            i += 1;
        }
        let start = from_chars(&head);
        concat(start.as_str(), "...")
    } else {
        line
    }
}

fn write_log_line(removed: bool, kind: &str, label: &str, address: &str) -> (html: String)
    ensures
        html@ == comrak_html(log_line(removed, kind@, label@, address@), false),
{
    let word = if removed {
        "Removed"
    } else {
        "Restored"
    };
    let line = concat(word, kind);
    let line = concat(line.as_str(), label);
    let line = concat(line.as_str(), "](");
    let line = concat(line.as_str(), address);
    let line = concat(line.as_str(), ")");
    render_markdown(line.as_str())
}

impl ModLogEntry {
    /// Whether `self` is the line for the removal of a post, or its reversal.
    pub open spec fn is_post_removal(&self, removal: ModRemovePostView) -> bool {
        &&& self.community == Some(removal.community)
        &&& self.reason == removal.reason
        &&& self.when == removal.when_
        &&& self.message@ == comrak_html(
            log_line(removal.removed->0, " post ["@, removal.post.name@, removal.post.ap_id@),
            false,
        )
    }

    /// Whether `self` is the line for the removal of a comment, or its reversal.
    pub open spec fn is_comment_removal(&self, removal: ModRemoveCommentView) -> bool {
        &&& self.community == Some(removal.community)
        &&& self.reason == removal.reason
        &&& self.when == removal.when_
        &&& self.message@ == comrak_html(
            log_line(
                removal.removed->0,
                " comment ["@,
                excerpt(removal.comment.content@),
                removal.comment.ap_id@,
            ),
            false,
        )
    }

    /// The line for the removal of a post, or its reversal. The record says
    /// which of the two it was.
    pub fn from_post_removal(removal: ModRemovePostView) -> (entry: ModLogEntry)
        requires
            removal.removed is Some,
        ensures
            entry.is_post_removal(removal),
    {
        let message = write_log_line(
            removal.removed.unwrap(),
            " post [",
            removal.post.name.as_str(),
            removal.post.ap_id.as_str(),
        );
        ModLogEntry {
            community: Some(removal.community),
            reason: removal.reason,
            when: removal.when_,
            message,
        }
    }

    /// The line for the removal of a comment, or its reversal. The record
    /// says which of the two it was.
    pub fn from_comment_removal(removal: ModRemoveCommentView) -> (entry: ModLogEntry)
        requires
            removal.removed is Some,
        ensures
            entry.is_comment_removal(removal),
    {
        let content = comment_excerpt(removal.comment.content.as_str());
        let message = write_log_line(
            removal.removed.unwrap(),
            " comment [",
            content.as_str(),
            removal.comment.ap_id.as_str(),
        );
        ModLogEntry {
            community: Some(removal.community),
            reason: removal.reason,
            when: removal.when_,
            message,
        }
    }
}

/// Whether `lines` holds a line for each of `posts`, in their order,
/// followed by one for each of `comments`, in theirs.
pub open spec fn is_log(
    lines: Seq<ModLogEntry>,
    posts: Seq<ModRemovePostView>,
    comments: Seq<ModRemoveCommentView>,
) -> bool {
    &&& lines.len() == posts.len() + comments.len()
    &&& forall|i: int| 0 <= i < posts.len() ==> (#[trigger] lines[i]).is_post_removal(posts[i])
    &&& forall|i: int|
        0 <= i < comments.len() ==> (#[trigger] lines[posts.len() + i]).is_comment_removal(
            comments[i],
        )
}

/// Whether every record says whether it is a removal or its reversal.
pub open spec fn all_decided(
    posts: Seq<ModRemovePostView>,
    comments: Seq<ModRemoveCommentView>,
) -> bool {
    &&& forall|i: int| 0 <= i < posts.len() ==> (#[trigger] posts[i]).removed is Some
    &&& forall|i: int| 0 <= i < comments.len() ==> (#[trigger] comments[i]).removed is Some
}

/// Whether `entries` is the moderation log for the removals of `posts` and
/// `comments`: a line for each, the newest first; lines of the same time in
/// the opposite of the order in which the posts, then the comments, came.
pub open spec fn is_mod_log(
    entries: Seq<ModLogEntry>,
    posts: Seq<ModRemovePostView>,
    comments: Seq<ModRemoveCommentView>,
) -> bool {
    exists|lines: Seq<ModLogEntry>|
        is_log(lines, posts, comments) && entries == (#[trigger] stable_sort(lines)).reverse()
}

/// Builds the moderation log from the removals that the backend lists.
pub fn mod_log(removed_posts: Vec<ModRemovePostView>, removed_comments: Vec<ModRemoveCommentView>) -> (entries:
    Vec<ModLogEntry>)
    requires
        all_decided(removed_posts@, removed_comments@),
    ensures
        is_mod_log(entries@, removed_posts@, removed_comments@),
        entries@.len() == removed_posts@.len() + removed_comments@.len(),
        forall|i: int, j: int|
            0 <= i <= j < entries@.len() ==> !entries@[i].when.is_before(entries@[j].when),
{
    let ghost all_posts = removed_posts@;
    let ghost all_comments = removed_comments@;
    let mut lines: Vec<ModLogEntry> = Vec::new();
    let mut posts = reverse(removed_posts);
    let mut comments = reverse(removed_comments);
    while posts.len() > 0
        invariant
            posts@ == all_posts.reverse().take(posts@.len() as int),
            posts@.len() <= all_posts.len(),
            lines@.len() == all_posts.len() - posts@.len(),
            forall|i: int| 0 <= i < all_posts.len() ==> (#[trigger] all_posts[i]).removed is Some,
            forall|i: int| 0 <= i < lines@.len() ==> (#[trigger] lines@[i]).is_post_removal(all_posts[i]),
        decreases posts.len(),
    {
        let ghost at = all_posts.len() - posts@.len();
        let removal = posts.pop().unwrap();
        assert(removal == all_posts[at]);
        lines.push(ModLogEntry::from_post_removal(removal));
    }
    while comments.len() > 0
        invariant
            comments@ == all_comments.reverse().take(comments@.len() as int),
            comments@.len() <= all_comments.len(),
            lines@.len() == all_posts.len() + all_comments.len() - comments@.len(),
            forall|i: int|
                0 <= i < all_comments.len() ==> (#[trigger] all_comments[i]).removed is Some,
            forall|i: int| 0 <= i < all_posts.len() ==> (#[trigger] lines@[i]).is_post_removal(all_posts[i]),
            forall|i: int|
                0 <= i < all_comments.len() - comments@.len() ==> (#[trigger] lines@[all_posts.len()
                    + i]).is_comment_removal(all_comments[i]),
        decreases comments.len(),
    {
        let ghost done = all_comments.len() - comments@.len();
        let removal = comments.pop().unwrap();
        assert(removal == all_comments[done]);
        lines.push(ModLogEntry::from_comment_removal(removal));
        assert forall|i: int| 0 <= i < done + 1 implies (#[trigger] lines@[all_posts.len()
            + i]).is_comment_removal(all_comments[i]) by {
            if i < done {
            }
        }
    }
    let ghost unsorted = lines@;
    let sorted = sort_by_key(lines);
    let entries = reverse(sorted);
    assert(is_log(unsorted, all_posts, all_comments));
    assert(entries@ == stable_sort(unsorted).reverse());
    assert forall|i: int, j: int| 0 <= i <= j < entries@.len() implies !entries@[i].when.is_before(
        entries@[j].when,
    ) by {
        let n = entries@.len() as int;
        assert(entries@[i] == sorted@[n - 1 - i]);
        assert(entries@[j] == sorted@[n - 1 - j]);
        assert(sorted@[n - 1 - j].key() <= sorted@[n - 1 - i].key());
        crate::time::lemma_instant_orders(entries@[i].when, entries@[j].when);
    }
    entries
}

} // verus!
