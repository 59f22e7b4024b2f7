//! Writing or changing a comment.

use crate::api::comment::{create_comment, edit_comment, get_comment};
use crate::api::{ApiCall, Sensitive};
use crate::model::CommentView;
use crate::routes::user::titled;
use crate::site_fairing::SiteData;
use crate::text::{concat, concat_int, decimal};
use crate::utils::{origin, replace_smilies, with_smilies};
use vstd::prelude::*;

verus! {

/// What is done to show the editor for a comment.
pub enum CommentEditorStep {
    /// Send the visitor to the login page.
    Login,
    /// Fetch the comment that is to be changed, then show the editor with
    /// its text.
    Fetch(ApiCall),
    /// Show the empty editor.
    Render,
}

/// Decides what is done to show the editor for a comment: a visitor who is
/// not logged in is sent to the login page; the comment that is to be
/// changed, if there is one, is fetched first.
pub fn comment_editor(edit: Option<i32>, auth: Option<Sensitive>) -> (step: CommentEditorStep)
    ensures
        step == match (auth, edit) {
            (None, _) => CommentEditorStep::Login,
            (Some(_), Some(id)) => CommentEditorStep::Fetch(ApiCall::GetComment { id, auth }),
            (Some(_), None) => CommentEditorStep::Render,
        },
{
    if auth.is_none() {
        return CommentEditorStep::Login;
    }
    match edit {
        Some(id) => CommentEditorStep::Fetch(get_comment(id, auth)),
        None => CommentEditorStep::Render,
    }
}

/// The address to which the editor sends a comment on the post with number
/// `post_id`: it names the comment that is changed, if one is, and the
/// comment that is replied to, if one is.
pub open spec fn comment_action(
    post_id: int,
    edit_comment_id: Option<i32>,
    reply: Option<i32>,
) -> Seq<char> {
    "/comment?t="@ + decimal(post_id) + match edit_comment_id {
        Some(id) => "&edit="@ + decimal(id as int),
        None => Seq::empty(),
    } + match reply {
        Some(id) => "&reply="@ + decimal(id as int),
        None => Seq::empty(),
    }
}

/// Builds the address to which the editor sends a comment.
pub fn render_editor(post_id: i32, edit_comment_id: Option<i32>, reply: Option<i32>) -> (action:
    String)
    ensures
        action@ == comment_action(post_id as int, edit_comment_id, reply),
{
    let mut action = concat_int("/comment?t=", post_id);
    let ghost start = action@;
    match edit_comment_id {
        Some(id) => {
            let with_mark = concat(action.as_str(), "&edit=");
            action = concat_int(with_mark.as_str(), id);
            assert(action@ =~= start + ("&edit="@ + decimal(id as int)));
        },
        None => {
            assert(action@ =~= start + Seq::<char>::empty());
        },
    }
    let ghost middle = action@;
    match reply {
        Some(id) => {
            let with_mark = concat(action.as_str(), "&reply=");
            action = concat_int(with_mark.as_str(), id);
            assert(action@ =~= middle + ("&reply="@ + decimal(id as int)));
        },
        None => {
            assert(action@ =~= middle + Seq::<char>::empty());
        },
    }
    action
}

/// The title of the page on which a comment is written.
pub fn editor_title(site_name: &str) -> (title: String)
    ensures
        title@ == titled("Post a reply"@, site_name@),
{
    let start = concat("Post a reply", " - ");
    concat(start.as_str(), site_name)
}

/// The comments that are shown below the editor: the newest twenty, the
/// newest first.
pub open spec fn newest_of(all: Seq<CommentView>) -> Seq<CommentView> {
    if all.len() <= 20 {
        all.reverse()
    } else {
        all.reverse().take(20)
    }
}

/// Picks the comments that are shown below the editor, from the thread's
/// comments, oldest first.
pub fn newest_comments(all: &Vec<CommentView>) -> (newest: Vec<CommentView>)
    ensures
        newest@ == newest_of(all@),
{
    let mut newest: Vec<CommentView> = Vec::new();
    let mut i: usize = all.len();
    while i > 0 && newest.len() < 20
        invariant
            i <= all.len(),
            newest@.len() == all.len() - i,
            newest@.len() <= 20,
            forall|k: int| 0 <= k < newest@.len() ==> #[trigger] newest@[k] == all@[all.len() - 1 - k],
        decreases i,
    {
        i -= 1;
        newest.push(all[i].clone());
    }
    assert(newest@ =~= newest_of(all@));
    newest
}

/// What the editor for a comment sends.
pub struct CommentForm {
    pub message: String,
    pub preview: Option<String>,
}

/// What is done with a comment that the editor sent.
pub enum CommentStep {
    /// Show the editor again, with this text.
    Preview(String),
    /// Make this call, then show the first page of the thread.
    Send(ApiCall),
}

/// Decides what is done with a comment that the editor sent for the post
/// with number `t`. Its smilies are replaced by pictures. A preview shows
/// the editor again. Else the comment with number `edit` is changed, or,
/// where none is named, a new comment is made, as a reply to the comment
/// `reply` where one is named; the visitor is logged in then.
pub fn do_comment(
    t: i32,
    edit: Option<i32>,
    reply: Option<i32>,
    form: CommentForm,
    site_data: &SiteData,
) -> (step: CommentStep)
    requires
        site_data.site.actor_domain is Some,
        form.preview is None ==> site_data.auth is Some,
    ensures
        ({
            let text = with_smilies(
                form.message@,
                origin(site_data.site.actor_scheme@, site_data.site.actor_domain->0@),
            );
            match (form.preview, edit) {
                (Some(_), _) => step matches CommentStep::Preview(message) && message@ == text,
                (None, Some(id)) => step matches CommentStep::Send(
                    ApiCall::EditComment { comment_id, content, auth },
                ) && comment_id == id && content@ == text && auth == site_data.auth->0,
                (None, None) => step matches CommentStep::Send(
                    ApiCall::CreateComment { post_id, content, parent_id, auth },
                ) && post_id == t && content@ == text && parent_id == reply && auth
                    == site_data.auth->0,
            }
        }),
{
    let message = replace_smilies(form.message.as_str(), site_data);
    if form.preview.is_some() {
        return CommentStep::Preview(message);
    }
    let auth = match &site_data.auth {
        Some(auth) => auth.duplicate(),
        None => vstd::pervasive::unreached(),
    };
    match edit {
        Some(id) => CommentStep::Send(edit_comment(id, message, auth)),
        None => CommentStep::Send(create_comment(t, message, reply, auth)),
    }
}

} // verus!
