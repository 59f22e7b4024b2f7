//! Reading a thread, and writing or changing its opening post.

use crate::api::comment::{shown_oldest_first, thread_order};
use crate::api::post::{create_post, edit_post, get_post};
use crate::api::{ApiCall, Sensitive};
use crate::model::{CommentView, Post};
use crate::pagination::{pagination_of, PageLimit, Pagination};
use crate::site_fairing::SiteData;
use crate::text::{concat, concat_int, decimal, starts_with};
use crate::utils::{origin, replace_smilies, with_smilies};
use vstd::prelude::*;

verus! {

/// The page that is shown where a request names none: the first.
pub open spec fn page_or_first(page: Option<i32>) -> int {
    match page {
        Some(page) => page as int,
        None => 1,
    }
}

/// The entries that stand on page `page` of `all`: twenty from the entry
/// at index `(page - 1) * 20` on, as far as there are any.
pub open spec fn page_of<T>(all: Seq<T>, page: int) -> Seq<T> {
    let start = (page - 1) * 20;
    if start < 0 || start >= all.len() {
        Seq::empty()
    } else if start + 20 <= all.len() {
        all.subrange(start, start + 20)
    } else {
        all.subrange(start, all.len() as int)
    }
}

/// The number of pages that `count` entries fill.
pub open spec fn pages_for(count: int) -> int {
    (count + 19) / 20
}

/// Every entry stands on exactly one page: the entry at index `at` is the
/// entry at index `at % 20` of page `at / 20 + 1`, and that page is not
/// after the last of the pages that the entries fill.
pub proof fn lemma_every_entry_is_on_its_page<T>(all: Seq<T>, at: int)
    requires
        0 <= at < all.len(),
    ensures
        at % 20 < page_of(all, at / 20 + 1).len(),
        page_of(all, at / 20 + 1)[at % 20] == all[at],
        1 <= at / 20 + 1 <= pages_for(all.len() as int),
{
}

/// No page holds more than twenty entries; the pages from the first to the
/// last that the entries fill hold at least one each, and the others none.
pub proof fn lemma_pages_are_filled<T>(all: Seq<T>, page: int)
    ensures
        page_of(all, page).len() <= 20,
        (1 <= page <= pages_for(all.len() as int)) <==> page_of(all, page).len() > 0,
        (1 <= page < pages_for(all.len() as int)) ==> page_of(all, page).len() == 20,
{
}

/// The link of the thread with number `t`, to which the page is appended.
pub open spec fn topic_base_link(t: int) -> Seq<char> {
    "/viewtopic?t="@ + decimal(t) + "&"@
}

/// The comments that stand on one page of a thread.
pub fn page_comments(all: &Vec<CommentView>, page: Option<i32>) -> (shown: Vec<CommentView>)
    ensures
        shown@ == page_of(all@, page_or_first(page)),
{
    let page: i64 = match page {
        Some(page) => page as i64,
        None => 1,
    };
    let first: i64 = (page - 1) * 20;
    let mut shown: Vec<CommentView> = Vec::new();
    if first < 0 || first as u64 >= all.len() as u64 {
        return shown;
    }
    let start: usize = first as usize;
    let end: usize = if all.len() - start >= 20 {
        start + 20
    } else {
        all.len()
    };
    let mut i: usize = start;
    while i < end
        invariant
            start <= i <= end <= all.len(),
            shown@ == all@.subrange(start as int, i as int),
        decreases end - i,
    {
        shown.push(all[i].clone());
        assert(shown@ =~= all@.subrange(start as int, i + 1));
        i += 1;
    }
    shown
}

/// What the page of a thread shows.
pub struct TopicPage {
    /// The comments on the page that is shown.
    pub comments: Vec<CommentView>,
    /// All comments of the thread that are shown on some page.
    pub all_comments: Vec<CommentView>,
    pub pagination: Pagination,
}

/// Lays out the thread of the post with number `t` from the comments that
/// the backend gave for it: the comments that are neither deleted nor
/// removed, oldest first, cut into pages; the page that was asked for; and
/// the strip that leads to the other pages, whose last page is known.
pub fn view_topic(t: i32, page: Option<i32>, comments: Vec<CommentView>) -> (topic: TopicPage)
    requires
        pages_for(thread_order(comments@).len() as int) <= i32::MAX,
    ensures
        topic.all_comments@ == thread_order(comments@),
        topic.comments@ == page_of(thread_order(comments@), page_or_first(page)),
        topic.pagination@ == pagination_of(
            page_or_first(page),
            PageLimit::Known(pages_for(thread_order(comments@).len() as int) as i32),
            topic_base_link(t as int),
        ),
{
    let all_comments = shown_oldest_first(comments);
    let shown = page_comments(&all_comments, page);
    let count = all_comments.len();
    let last_page: usize = if count % 20 == 0 {
        count / 20
    } else {
        count / 20 + 1
    };
    let link = concat_int("/viewtopic?t=", t);
    let link = concat(link.as_str(), "&");
    let current = match page {
        Some(page) => page,
        None => 1,
    };
    let pagination = Pagination::new(current, PageLimit::Known(last_page as i32), link);
    TopicPage { comments: shown, all_comments, pagination }
}

/// Decides whether the address that a post links to is shown as a picture:
/// it is where the content type that its server reports begins with `image/`.
pub fn is_image_url(content_type: &str) -> (image: bool)
    ensures
        image == "image/"@.is_prefix_of(content_type@),
{
    starts_with(content_type, "image/")
}

/// What is done to show the editor for a post.
pub enum PostEditorStep {
    /// Fetch the post that is to be changed, then show the editor with its
    /// title and text.
    Fetch(ApiCall),
    /// Show the empty editor.
    Render,
}

/// Decides what is done to show the editor for a post: the post that is to
/// be changed, if there is one, is fetched first.
pub fn post_editor(edit: Option<i32>, auth: Option<Sensitive>) -> (step: PostEditorStep)
    ensures
        step == match edit {
            Some(id) => PostEditorStep::Fetch(ApiCall::GetPost { id, auth }),
            None => PostEditorStep::Render,
        },
{
    match edit {
        Some(id) => PostEditorStep::Fetch(get_post(id, auth)),
        None => PostEditorStep::Render,
    }
}

/// The title and the text with which the editor opens for a post that is
/// to be changed: the post's own, the text empty where the post has none.
pub fn post_texts(post: &Post) -> (texts: (String, String))
    ensures
        texts.0 == post.name,
        match post.body {
            Some(body) => texts.1 == body,
            None => texts.1@ == Seq::<char>::empty(),
        },
{
    let body = match &post.body {
        Some(body) => body.clone(),
        None => String::new(),
    };
    (post.name.clone(), body)
}

/// The address to which the editor sends a post: that of the community,
/// and of the post that is changed, if one is.
pub open spec fn post_action(community_id: int, edit_post_id: Option<i32>) -> Seq<char> {
    match edit_post_id {
        Some(id) => "/post?f="@ + decimal(community_id) + "&edit="@ + decimal(id as int),
        None => "/post?f="@ + decimal(community_id),
    }
}

/// Builds the address to which the editor sends a post.
pub fn render_editor(community_id: i32, edit_post_id: Option<i32>) -> (action: String)
    ensures
        action@ == post_action(community_id as int, edit_post_id),
{
    let action = concat_int("/post?f=", community_id);
    match edit_post_id {
        Some(id) => {
            let action = concat(action.as_str(), "&edit=");
            concat_int(action.as_str(), id)
        },
        None => action,
    }
}

/// What the editor for a post sends.
pub struct PostForm {
    pub subject: String,
    pub message: String,
    pub preview: Option<String>,
}

/// What is done with a post that the editor sent.
pub enum PostStep {
    /// Show the editor again, with this title and this text.
    Preview { subject: String, message: String },
    /// Make this call, then show the thread of the post that it returns.
    Send(ApiCall),
}

/// Decides what is done with a post that the editor sent to the community
/// with number `f`. Its smilies are replaced by pictures. A preview shows
/// the editor again. Else the post with number `edit` is changed, or, where
/// none is named, a new thread is opened, with the visitor's session, which
/// the site's data then holds.
pub fn do_post(f: i32, edit: Option<i32>, form: PostForm, site_data: &SiteData) -> (step: PostStep)
    requires
        site_data.site.actor_domain is Some,
        form.preview is None ==> site_data.auth is Some,
    ensures
        ({
            let text = with_smilies(
                form.message@,
                origin(site_data.site.actor_scheme@, site_data.site.actor_domain->0@),
            );
            match (form.preview, edit) {
                (Some(_), _) => step matches PostStep::Preview { subject, message } && subject
                    == form.subject && message@ == text,
                (None, None) => step matches PostStep::Send(
                    ApiCall::CreatePost { name, body, community_id, auth },
                ) && name == form.subject && body@ == text && community_id == f && auth
                    == site_data.auth->0,
                (None, Some(id)) => step matches PostStep::Send(
                    ApiCall::EditPost { post_id, name, body, auth },
                ) && name == form.subject && body@ == text && post_id == id && auth
                    == site_data.auth->0,
            }
        }),
{
    let message = replace_smilies(form.message.as_str(), site_data);
    if form.preview.is_some() {
        return PostStep::Preview { subject: form.subject, message };
    }
    let auth = match &site_data.auth {
        Some(auth) => auth.duplicate(),
        None => vstd::pervasive::unreached(),
    };
    match edit {
        None => PostStep::Send(create_post(form.subject, message, f, auth)),
        Some(id) => PostStep::Send(edit_post(form.subject, message, id, auth)),
    }
}

} // verus!
