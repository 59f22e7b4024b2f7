//! Calls about comments, and the order in which a thread shows them.

use crate::api::{ApiCall, CommentSortType, Sensitive};
use crate::model::CommentView;
use crate::sort::{is_sorted, lemma_stable_sort_sorts, sort_by_key, stable_sort, Keyed};
use crate::vecs::reverse;
use vstd::prelude::*;

verus! {

impl Keyed for CommentView {
    open spec fn key(&self) -> int {
        self.comment.published.instant()
    }

    fn key_lt(&self, other: &CommentView) -> (smaller: bool) {
        self.comment.published.before(&other.comment.published)
    }
}

/// The comments of `comments` that are neither deleted nor removed.
pub open spec fn shown(comments: Seq<CommentView>) -> Seq<CommentView> {
    comments.filter(|view: CommentView| view.comment.is_visible())
}

/// Drops the comments that are deleted or removed.
pub fn keep_shown(comments: Vec<CommentView>) -> (kept: Vec<CommentView>)
    ensures
        kept@ == shown(comments@),
{
    let ghost all = comments@;
    let mut rest = reverse(comments);
    let mut kept: Vec<CommentView> = Vec::new();
    assert(all.take(0) =~= Seq::<CommentView>::empty());
    while rest.len() > 0
        invariant
            rest@ == all.reverse().take(rest@.len() as int),
            rest@.len() <= all.len(),
            kept@ == shown(all.take(all.len() - rest@.len())),
        decreases rest.len(),
    {
        let ghost done = all.len() - rest@.len();
        let view = rest.pop().unwrap();
        assert(view == all[done]);
        proof {
            assert(all.take(done + 1) =~= all.take(done).push(all[done]));
            all.take(done).lemma_filter_push(
                all[done],
                |view: CommentView| view.comment.is_visible(),
            );
        }
        if view.comment.visible() {
            kept.push(view);
        }
    }
    assert(all.take(all.len() as int) =~= all);
    kept
}

/// The comments that a thread shows, in the order in which it shows them:
/// those that are neither deleted nor removed, oldest first.
pub open spec fn thread_order(comments: Seq<CommentView>) -> Seq<CommentView> {
    stable_sort(shown(comments))
}

/// A thread shows comments that are neither deleted nor removed, each as
/// often as it was listed, and none before an older one.
pub proof fn lemma_thread_order_is_oldest_first(comments: Seq<CommentView>)
    ensures
        is_sorted(thread_order(comments)),
        thread_order(comments).to_multiset() == shown(comments).to_multiset(),
        thread_order(comments).len() == shown(comments).len(),
        thread_order(comments).len() <= comments.len(),
        forall|i: int|
            0 <= i < thread_order(comments).len() ==> (#[trigger] thread_order(
                comments,
            )[i]).comment.is_visible(),
        forall|i: int, j: int|
            0 <= i <= j < thread_order(comments).len() ==> !thread_order(
                comments,
            )[j].comment.published.is_before(thread_order(comments)[i].comment.published),
{
    let kept = shown(comments);
    let ordered = thread_order(comments);
    let visible = |view: CommentView| view.comment.is_visible();
    lemma_stable_sort_sorts(kept);
    comments.lemma_filter_len(visible);
    assert forall|i: int| 0 <= i < ordered.len() implies (#[trigger] ordered[i]).comment.is_visible() by {
        vstd::seq_lib::to_multiset_contains(ordered, ordered[i]);
        vstd::seq_lib::to_multiset_contains(kept, ordered[i]);
        assert(ordered.contains(ordered[i]));
        let j = choose|j: int| 0 <= j < kept.len() && kept[j] == ordered[i];
        comments.lemma_filter_pred(visible, j);
    }
    assert forall|i: int, j: int| 0 <= i <= j < ordered.len() implies !ordered[j].comment.published.is_before(
        ordered[i].comment.published,
    ) by {
        assert(ordered[i].key() <= ordered[j].key());
        crate::time::lemma_instant_orders(
            ordered[j].comment.published,
            ordered[i].comment.published,
        );
    }
}

/// Puts the comments that the backend listed for a post into the order in
/// which the thread shows them.
pub fn shown_oldest_first(comments: Vec<CommentView>) -> (ordered: Vec<CommentView>)
    ensures
        ordered@ == thread_order(comments@),
{
    sort_by_key(keep_shown(comments))
}

/// The call that lists the comments on a post, newest first.
pub fn list_comments(post_id: i32, auth: Option<Sensitive>) -> (call: ApiCall)
    ensures
        call == (ApiCall::ListComments { sort: CommentSortType::New, post_id, auth }),
{
    ApiCall::ListComments { sort: CommentSortType::New, post_id, auth }
}

/// The call that fetches the newest comment of a community.
pub fn list_community_comments(community_id: i32, auth: Option<Sensitive>) -> (call: ApiCall)
    ensures
        call == (ApiCall::ListCommunityComments {
            sort: CommentSortType::New,
            limit: 1,
            community_id,
            auth,
        }),
{
    ApiCall::ListCommunityComments { sort: CommentSortType::New, limit: 1, community_id, auth }
}

/// The call that adds a comment to a post, as a reply to the comment
/// `parent_id` where one is given.
pub fn create_comment(post_id: i32, content: String, parent_id: Option<i32>, auth: Sensitive) -> (call:
    ApiCall)
    ensures
        call == (ApiCall::CreateComment { post_id, content, parent_id, auth }),
{
    ApiCall::CreateComment { post_id, content, parent_id, auth }
}

/// The call that changes the text of a comment.
pub fn edit_comment(comment_id: i32, content: String, auth: Sensitive) -> (call: ApiCall)
    ensures
        call == (ApiCall::EditComment { comment_id, content, auth }),
{
    ApiCall::EditComment { comment_id, content, auth }
}

/// The call that fetches one comment.
pub fn get_comment(comment_id: i32, auth: Option<Sensitive>) -> (call: ApiCall)
    ensures
        call == (ApiCall::GetComment { id: comment_id, auth }),
{
    ApiCall::GetComment { id: comment_id, auth }
}

/// The call that reports a comment to the moderators.
pub fn report_comment(comment_id: i32, reason: String, auth: Sensitive) -> (call: ApiCall)
    ensures
        call == (ApiCall::ReportComment { comment_id, reason, auth }),
{
    ApiCall::ReportComment { comment_id, reason, auth }
}

} // verus!
