//! Views that take more than one call to the backend: the latest reply in a
//! thread or in a community, and the visitor's notifications.

use crate::api::{duplicate_auth, ApiCall, CommentSortType, Sensitive, SortType};
use crate::error::ApiError;
use crate::model::{CommentReplyView, CommentView, Person, PersonMentionView, PostView};
use crate::sort::{is_sorted, sort_by_key, stable_sort, Keyed};
use crate::vecs::reverse;
use crate::text::{concat, decimal, int_to_string};
use crate::time::Timestamp;
use vstd::prelude::*;

verus! {

/// The latest entry of a thread or of a community: the post itself, or a
/// comment made on it.
#[derive(Debug)]
pub struct PostOrComment {
    pub title: String,
    pub creator: Person,
    pub post_id: i32,
    pub reply_id: i32,
    pub time: Timestamp,
}

/// The title under which a comment on the post titled `post_title` is listed.
pub open spec fn comment_title(post_title: Seq<char>) -> Seq<char> {
    "Re: "@ + post_title
}

/// Builds the title under which a comment on a post is listed.
pub fn generate_comment_title(post_title: &str) -> (title: String)
    ensures
        title@ == comment_title(post_title@),
{
    concat("Re: ", post_title)
}

impl PostOrComment {
    /// Whether `self` stands for `post` itself: it has the post's title,
    /// author and time, and the post's number in both places.
    pub open spec fn is_post(&self, post: PostView) -> bool {
        &&& self.title@ == post.post.name@
        &&& self.creator == post.creator
        &&& self.post_id == post.post.id
        &&& self.reply_id == post.post.id
        &&& self.time == post.post.published
    }

    /// Whether `self` stands for the comment of `view`: it has the title of
    /// a reply to the comment's post, and the comment's author, number and time.
    pub open spec fn is_comment(&self, view: CommentView) -> bool {
        &&& self.title@ == comment_title(view.post.name@)
        &&& self.creator == view.creator
        &&& self.post_id == view.post.id
        &&& self.reply_id == view.comment.id
        &&& self.time == view.comment.published
    }

    /// The entry that stands for `post` itself.
    pub fn from_post(post: &PostView) -> (entry: PostOrComment)
        ensures
            entry.is_post(*post),
    {
        PostOrComment {
            title: post.post.name.clone(),
            creator: post.creator.clone(),
            post_id: post.post.id,
            reply_id: post.post.id,
            time: post.post.published,
        }
    }

    /// The entry that stands for the comment of `view`.
    pub fn from_comment(view: &CommentView) -> (entry: PostOrComment)
        ensures
            entry.is_comment(*view),
    {
        PostOrComment {
            title: generate_comment_title(view.post.name.as_str()),
            creator: view.creator.clone(),
            post_id: view.post.id,
            reply_id: view.comment.id,
            time: view.comment.published,
        }
    }
}

/// Whether `comments[at]` is the comment that counts as the latest: it is
/// shown, no shown comment was published after it, and every shown comment
/// that follows it in the list was published before it.
pub open spec fn is_latest_shown(comments: Seq<CommentView>, at: int) -> bool {
    &&& 0 <= at < comments.len()
    &&& comments[at].comment.is_visible()
    &&& forall|j: int|
        0 <= j < comments.len() && (#[trigger] comments[j]).comment.is_visible()
            ==> !comments[at].comment.published.is_before(comments[j].comment.published)
    &&& forall|j: int|
        at < j < comments.len() && (#[trigger] comments[j]).comment.is_visible()
            ==> comments[j].comment.published.is_before(comments[at].comment.published)
}

/// Whether none of `comments` is shown.
pub open spec fn none_shown(comments: Seq<CommentView>) -> bool {
    forall|j: int| 0 <= j < comments.len() ==> !(#[trigger] comments[j]).comment.is_visible()
}

/// Finds the latest comment that is shown: of the comments that are neither
/// deleted nor removed, the one published last, and of several published at
/// the same time the one that stands last in the list.
pub fn latest_shown_comment(comments: &Vec<CommentView>) -> (found: Option<usize>)
    ensures
        match found {
            Some(at) => is_latest_shown(comments@, at as int),
            None => none_shown(comments@),
        },
{
    let mut found: Option<usize> = None;
    let mut i: usize = 0;
    while i < comments.len()
        invariant
            i <= comments.len(),
            match found {
                Some(at) => is_latest_shown(comments@.take(i as int), at as int),
                None => none_shown(comments@.take(i as int)),
            },
        decreases comments.len() - i,
    {
        let ghost seen = comments@.take(i as int);
        let ghost next = comments@.take(i + 1);
        assert forall|j: int| 0 <= j < i implies #[trigger] next[j] == seen[j] by {}
        if comments[i].comment.visible() {
            let newer = match found {
                Some(at) => !comments[i].comment.published.before(&comments[at].comment.published),
                None => true,
            };
            if newer {
                found = Some(i);
            }
        }
        i += 1;
    }
    assert(comments@.take(i as int) =~= comments@);
    found
}

/// How far the search for a thread's latest reply has come.
pub enum ThreadReplyState {
    /// Nothing has been asked yet.
    Start,
    /// The post was asked for together with its comments.
    AwaitingPost { auth: Option<Sensitive> },
    /// The comments on `post` were asked for.
    AwaitingComments { post: PostView, auth: Option<Sensitive> },
    /// The author of the latest comment was asked for; the rest of the entry
    /// is known.
    AwaitingCreator { title: String, post_id: i32, reply_id: i32, time: Timestamp },
    /// The search has ended.
    Finished,
}

/// What happened since the last step.
pub enum ThreadReplyEvent {
    /// The latest reply to `post` is wanted.
    Begin { post: PostView, auth: Option<Sensitive> },
    /// The backend answered the call for the post.
    PostFetched(Result<PostView, ApiError>),
    /// The backend answered the call for the comments.
    CommentsListed(Result<Vec<CommentView>, ApiError>),
    /// The backend answered the call for the author.
    CreatorFetched(Result<Person, ApiError>),
}

/// What is to be done next.
pub enum ReplyAction {
    /// Make this call, and hand its answer to the next step.
    Call(ApiCall),
    /// The latest reply is found.
    Return(PostOrComment),
    /// The search failed.
    Fail(ApiError),
}

/// The message of the error with which a step answers an event that the
/// state does not wait for.
pub open spec fn out_of_turn() -> Seq<char> {
    "event does not fit the state"@
}

/// Whether `action` fails with the error for an event out of turn.
pub open spec fn fails_out_of_turn(action: ReplyAction) -> bool {
    action matches ReplyAction::Fail(ApiError::Rejected(message)) && message@ == out_of_turn()
}

/// Whether `event` is one that `state` waits for.
pub open spec fn thread_reply_in_turn(state: ThreadReplyState, event: ThreadReplyEvent) -> bool {
    match (state, event) {
        (ThreadReplyState::Start, ThreadReplyEvent::Begin { .. }) => true,
        (ThreadReplyState::AwaitingPost { .. }, ThreadReplyEvent::PostFetched(_)) => true,
        (ThreadReplyState::AwaitingComments { .. }, ThreadReplyEvent::CommentsListed(_)) => true,
        (ThreadReplyState::AwaitingCreator { .. }, ThreadReplyEvent::CreatorFetched(_)) => true,
        _ => false,
    }
}

/// Whether `next` and `action` are the step that follows `event` in `state`.
///
/// A post without comments is its own latest reply. Otherwise the post is
/// fetched, then its comments; the latest comment that is shown gives the
/// entry, under the title of a reply to the fetched post, once its author is
/// fetched. Where none of the comments is shown, the fetched post is its own
/// latest reply. A failed call ends the search with its error.
pub open spec fn thread_reply_step(
    state: ThreadReplyState,
    event: ThreadReplyEvent,
    next: ThreadReplyState,
    action: ReplyAction,
) -> bool {
    match (state, event) {
        (ThreadReplyState::Start, ThreadReplyEvent::Begin { post, auth }) => {
            if post.comments == 0 {
                &&& next is Finished
                &&& action matches ReplyAction::Return(entry) && entry.is_post(post)
            } else {
                &&& next == (ThreadReplyState::AwaitingPost { auth })
                &&& action == ReplyAction::Call(ApiCall::GetPost { id: post.post.id, auth })
            }
        },
        (ThreadReplyState::AwaitingPost { auth }, ThreadReplyEvent::PostFetched(Ok(post))) => {
            &&& next == (ThreadReplyState::AwaitingComments { post, auth })
            &&& action == ReplyAction::Call(
                ApiCall::ListComments { sort: CommentSortType::New, post_id: post.post.id, auth },
            )
        },
        (ThreadReplyState::AwaitingPost { .. }, ThreadReplyEvent::PostFetched(Err(error))) => {
            next is Finished && action == ReplyAction::Fail(error)
        },
        (
            ThreadReplyState::AwaitingComments { post, auth },
            ThreadReplyEvent::CommentsListed(Ok(comments)),
        ) => {
            if none_shown(comments@) {
                &&& next is Finished
                &&& action matches ReplyAction::Return(entry) && entry.is_post(post)
            } else {
                exists|at: int|
                    {
                        &&& is_latest_shown(comments@, at)
                        &&& next matches ThreadReplyState::AwaitingCreator {
                            title,
                            post_id,
                            reply_id,
                            time,
                        }
                        &&& title@ == comment_title(post.post.name@)
                        &&& post_id == post.post.id
                        &&& reply_id == comments@[at].comment.id
                        &&& time == comments@[at].comment.published
                        &&& action == ReplyAction::Call(
                            ApiCall::GetPersonDetails {
                                username: None,
                                person_id: Some(comments@[at].comment.creator_id),
                                auth,
                            },
                        )
                    }
            }
        },
        (
            ThreadReplyState::AwaitingComments { .. },
            ThreadReplyEvent::CommentsListed(Err(error)),
        ) => { next is Finished && action == ReplyAction::Fail(error) },
        (
            ThreadReplyState::AwaitingCreator { title, post_id, reply_id, time },
            ThreadReplyEvent::CreatorFetched(Ok(creator)),
        ) => {
            &&& next is Finished
            &&& action == ReplyAction::Return(
                PostOrComment { title, creator, post_id, reply_id, time },
            )
        },
        (
            ThreadReplyState::AwaitingCreator { .. },
            ThreadReplyEvent::CreatorFetched(Err(error)),
        ) => { next is Finished && action == ReplyAction::Fail(error) },
        _ => next is Finished && fails_out_of_turn(action),
    }
}

fn out_of_turn_action() -> (action: ReplyAction)
    ensures
        fails_out_of_turn(action),
{
    ReplyAction::Fail(ApiError::Rejected("event does not fit the state".to_owned()))
}

/// One step of the search for the latest reply in a thread: takes the state
/// and what happened, and gives the next state and what to do.
pub fn get_last_reply_in_thread(state: ThreadReplyState, event: ThreadReplyEvent) -> (step: (
    ThreadReplyState,
    ReplyAction,
))
    ensures
        thread_reply_step(state, event, step.0, step.1),
{
    match (state, event) {
        (ThreadReplyState::Start, ThreadReplyEvent::Begin { post, auth }) => {
            if post.comments == 0 {
                (ThreadReplyState::Finished, ReplyAction::Return(PostOrComment::from_post(&post)))
            } else {
                let call = ApiCall::GetPost { id: post.post.id, auth: duplicate_auth(&auth) };
                (ThreadReplyState::AwaitingPost { auth }, ReplyAction::Call(call))
            }
        },
        (ThreadReplyState::AwaitingPost { auth }, ThreadReplyEvent::PostFetched(fetched)) => {
            match fetched {
                Ok(post) => {
                    let call = ApiCall::ListComments {
                        sort: CommentSortType::New,
                        post_id: post.post.id,
                        auth: duplicate_auth(&auth),
                    };
                    (ThreadReplyState::AwaitingComments { post, auth }, ReplyAction::Call(call))
                },
                Err(error) => (ThreadReplyState::Finished, ReplyAction::Fail(error)),
            }
        },
        (
            ThreadReplyState::AwaitingComments { post, auth },
            ThreadReplyEvent::CommentsListed(listed),
        ) => {
            match listed {
                Ok(comments) => {
                    match latest_shown_comment(&comments) {
                        None => (
                            ThreadReplyState::Finished,
                            ReplyAction::Return(PostOrComment::from_post(&post)),
                        ),
                        Some(at) => {
                            let last = &comments[at].comment;
                            let call = ApiCall::GetPersonDetails {
                                username: None,
                                person_id: Some(last.creator_id),
                                auth,
                            };
                            let next = ThreadReplyState::AwaitingCreator {
                                title: generate_comment_title(post.post.name.as_str()),
                                post_id: post.post.id,
                                reply_id: last.id,
                                time: last.published,
                            };
                            assert(!none_shown(comments@)) by {
                                assert(comments@[at as int].comment.is_visible());
                            }
                            (next, ReplyAction::Call(call))
                        },
                    }
                },
                Err(error) => (ThreadReplyState::Finished, ReplyAction::Fail(error)),
            }
        },
        (
            ThreadReplyState::AwaitingCreator { title, post_id, reply_id, time },
            ThreadReplyEvent::CreatorFetched(fetched),
        ) => {
            match fetched {
                Ok(creator) => (
                    ThreadReplyState::Finished,
                    ReplyAction::Return(PostOrComment { title, creator, post_id, reply_id, time }),
                ),
                Err(error) => (ThreadReplyState::Finished, ReplyAction::Fail(error)),
            }
        },
        _ => (ThreadReplyState::Finished, out_of_turn_action()),
    }
}

/// How many steps the search for a thread's latest reply has behind it.
pub open spec fn thread_reply_phase(state: ThreadReplyState) -> nat {
    match state {
        ThreadReplyState::Start => 0,
        ThreadReplyState::AwaitingPost { .. } => 1,
        ThreadReplyState::AwaitingComments { .. } => 2,
        ThreadReplyState::AwaitingCreator { .. } => 3,
        ThreadReplyState::Finished => 4,
    }
}

/// Every step of the search in a thread either asks for one call and moves
/// on to the state that waits for its answer, or ends the search; so a search
/// makes no more than three calls.
pub proof fn lemma_thread_search_advances(
    state: ThreadReplyState,
    event: ThreadReplyEvent,
    next: ThreadReplyState,
    action: ReplyAction,
)
    requires
        thread_reply_step(state, event, next, action),
    ensures
        action is Call <==> !(next is Finished),
        action is Call ==> thread_reply_phase(next) == thread_reply_phase(state) + 1,
        thread_reply_in_turn(state, event) || fails_out_of_turn(action),
{
}

/// A post without comments is its own latest reply: the search ends at once,
/// with an entry that has the post's title and the post's time.
pub proof fn lemma_post_without_comments_is_last_reply(
    post: PostView,
    auth: Option<Sensitive>,
    next: ThreadReplyState,
    action: ReplyAction,
)
    requires
        post.comments == 0,
        thread_reply_step(
            ThreadReplyState::Start,
            ThreadReplyEvent::Begin { post, auth },
            next,
            action,
        ),
    ensures
        next is Finished,
        action is Return,
        action->Return_0.is_post(post),
        action->Return_0.title@ == post.post.name@,
        action->Return_0.time == post.post.published,
{
}

/// The latest reply in a thread that has a shown comment is that comment:
/// once its author is fetched, the entry has the title of a reply to the
/// post and the time of the comment, which no shown comment was published after.
pub proof fn lemma_latest_comment_is_last_reply(
    post: PostView,
    auth: Option<Sensitive>,
    comments: Vec<CommentView>,
    waiting: ThreadReplyState,
    lookup: ReplyAction,
    creator: Person,
    next: ThreadReplyState,
    action: ReplyAction,
)
    requires
        !none_shown(comments@),
        thread_reply_step(
            ThreadReplyState::AwaitingComments { post, auth },
            ThreadReplyEvent::CommentsListed(Ok(comments)),
            waiting,
            lookup,
        ),
        thread_reply_step(waiting, ThreadReplyEvent::CreatorFetched(Ok(creator)), next, action),
    ensures
        next is Finished,
        action is Return,
        action->Return_0.title@ == comment_title(post.post.name@),
        action->Return_0.creator == creator,
        exists|at: int|
            #[trigger] is_latest_shown(comments@, at) && action->Return_0.time
                == comments@[at].comment.published && action->Return_0.reply_id
                == comments@[at].comment.id,
{
}

/// Whether `comments[at]` is the last comment of the list that is shown.
pub open spec fn is_last_shown_comment(comments: Seq<CommentView>, at: int) -> bool {
    &&& 0 <= at < comments.len()
    &&& comments[at].comment.is_visible()
    &&& forall|j: int| at < j < comments.len() ==> !(#[trigger] comments[j]).comment.is_visible()
}

/// Whether `posts[at]` is the last post of the list that is shown.
pub open spec fn is_last_shown_post(posts: Seq<PostView>, at: int) -> bool {
    &&& 0 <= at < posts.len()
    &&& posts[at].post.is_visible()
    &&& forall|j: int| at < j < posts.len() ==> !(#[trigger] posts[j]).post.is_visible()
}

/// Whether none of `posts` is shown.
pub open spec fn no_post_shown(posts: Seq<PostView>) -> bool {
    forall|j: int| 0 <= j < posts.len() ==> !(#[trigger] posts[j]).post.is_visible()
}

/// Finds the last comment of the list that is neither deleted nor removed.
pub fn last_shown_comment(comments: &Vec<CommentView>) -> (found: Option<usize>)
    ensures
        match found {
            Some(at) => is_last_shown_comment(comments@, at as int),
            None => none_shown(comments@),
        },
{
    let mut i: usize = comments.len();
    while i > 0
        invariant
            i <= comments.len(),
            forall|j: int| i <= j < comments.len() ==> !(#[trigger] comments@[j]).comment.is_visible(),
        decreases i,
    {
        i -= 1;
        if comments[i].comment.visible() {
            return Some(i);
        }
    }
    None
}

/// Finds the last post of the list that is neither deleted nor removed.
pub fn last_shown_post(posts: &Vec<PostView>) -> (found: Option<usize>)
    ensures
        match found {
            Some(at) => is_last_shown_post(posts@, at as int),
            None => no_post_shown(posts@),
        },
{
    let mut i: usize = posts.len();
    while i > 0
        invariant
            i <= posts.len(),
            forall|j: int| i <= j < posts.len() ==> !(#[trigger] posts@[j]).post.is_visible(),
        decreases i,
    {
        i -= 1;
        if posts[i].post.visible() {
            return Some(i);
        }
    }
    None
}

/// Of a comment and a post, the one that is the later: the post where it
/// was published after the comment, the comment where it was not; the one
/// that there is, where only one is given.
pub open spec fn later_of(
    comment: Option<PostOrComment>,
    post: Option<PostOrComment>,
) -> Option<PostOrComment> {
    match (comment, post) {
        (Some(comment), Some(post)) => if comment.time.is_before(post.time) {
            Some(post)
        } else {
            Some(comment)
        },
        (Some(comment), None) => Some(comment),
        (None, post) => post,
    }
}

/// Chooses the later of a comment and a post.
pub fn later_entry(comment: Option<PostOrComment>, post: Option<PostOrComment>) -> (latest: Option<
    PostOrComment,
>)
    ensures
        latest == later_of(comment, post),
{
    match comment {
        Some(comment) => match post {
            Some(post) => {
                if post.time.after(&comment.time) {
                    Some(post)
                } else {
                    Some(comment)
                }
            },
            None => Some(comment),
        },
        None => post,
    }
}

/// Whether `entry` stands for the last shown comment of `comments`, or is
/// `None` where none is shown.
pub open spec fn is_comment_candidate(
    comments: Seq<CommentView>,
    entry: Option<PostOrComment>,
) -> bool {
    match entry {
        Some(entry) => exists|at: int|
            is_last_shown_comment(comments, at) && entry.is_comment(#[trigger] comments[at]),
        None => none_shown(comments),
    }
}

/// Whether `entry` stands for the last shown post of `posts`, or is `None`
/// where none is shown.
pub open spec fn is_post_candidate(posts: Seq<PostView>, entry: Option<PostOrComment>) -> bool {
    match entry {
        Some(entry) => exists|at: int|
            is_last_shown_post(posts, at) && entry.is_post(#[trigger] posts[at]),
        None => no_post_shown(posts),
    }
}

/// The latest entry among the comments and the posts that the backend listed
/// for a community: the later of the last shown comment and the last shown
/// post.
pub fn latest_in_community(comments: &Vec<CommentView>, posts: &Vec<PostView>) -> (latest: Option<
    PostOrComment,
>)
    ensures
        exists|comment: Option<PostOrComment>, post: Option<PostOrComment>|
            {
                &&& is_comment_candidate(comments@, comment)
                &&& is_post_candidate(posts@, post)
                &&& latest == #[trigger] later_of(comment, post)
            },
        (none_shown(comments@) && no_post_shown(posts@)) <==> latest is None,
{
    let comment = match last_shown_comment(comments) {
        Some(at) => Some(PostOrComment::from_comment(&comments[at])),
        None => None,
    };
    let post = match last_shown_post(posts) {
        Some(at) => Some(PostOrComment::from_post(&posts[at])),
        None => None,
    };
    later_entry(comment, post)
}

/// How far the search for a community's latest reply has come.
pub enum CommunityReplyState {
    /// Nothing has been asked yet.
    Start,
    /// The latest comment and the latest post of the community were asked for.
    AwaitingLists,
    /// The search has ended.
    Finished,
}

/// What happened since the last step.
pub enum CommunityReplyEvent {
    /// The latest reply in the community is wanted. `increased_rate_limit`
    /// says whether the backend accepts the extra calls that the search takes.
    Begin { community_id: i32, auth: Option<Sensitive>, increased_rate_limit: bool },
    /// The backend answered both calls.
    Listed { comments: Result<Vec<CommentView>, ApiError>, posts: Result<Vec<PostView>, ApiError> },
}

/// What is to be done next in the search for a community's latest reply.
pub enum CommunityReplyAction {
    /// Make both calls, side by side, and hand their answers to the next
    /// step: the first lists comments, the second posts.
    Call(ApiCall, ApiCall),
    /// The search is over: this is the latest reply, if there is one.
    Return(Option<PostOrComment>),
    /// The search failed.
    Fail(ApiError),
}

/// Whether `next` and `action` are the step that follows `event` in `state`.
///
/// Without the increased rate limit nothing is asked and nothing found.
/// With it, the community's newest comment and newest post are asked for, one
/// of each; if either call fails the search fails, with the error of the
/// comments where both do; else the later of the two is the latest reply.
pub open spec fn community_reply_step(
    state: CommunityReplyState,
    event: CommunityReplyEvent,
    next: CommunityReplyState,
    action: CommunityReplyAction,
) -> bool {
    match (state, event) {
        (
            CommunityReplyState::Start,
            CommunityReplyEvent::Begin { community_id, auth, increased_rate_limit },
        ) => {
            if !increased_rate_limit {
                next is Finished && action == CommunityReplyAction::Return(None)
            } else {
                &&& next is AwaitingLists
                &&& action == CommunityReplyAction::Call(
                    ApiCall::ListCommunityComments {
                        sort: CommentSortType::New,
                        limit: 1,
                        community_id,
                        auth,
                    },
                    ApiCall::ListPosts {
                        community_id,
                        sort: SortType::NewComments,
                        limit: 1,
                        page: 1,
                        auth,
                    },
                )
            }
        },
        (CommunityReplyState::AwaitingLists, CommunityReplyEvent::Listed { comments, posts }) => {
            &&& next is Finished
            &&& match (comments, posts) {
                (Err(error), _) => action == CommunityReplyAction::Fail(error),
                (Ok(_), Err(error)) => action == CommunityReplyAction::Fail(error),
                (Ok(comments), Ok(posts)) => {
                    &&& action matches CommunityReplyAction::Return(latest)
                    &&& exists|comment: Option<PostOrComment>, post: Option<PostOrComment>|
                        {
                            &&& is_comment_candidate(comments@, comment)
                            &&& is_post_candidate(posts@, post)
                            &&& latest == #[trigger] later_of(comment, post)
                        }
                },
            }
        },
        _ => {
            &&& next is Finished
            &&& action matches CommunityReplyAction::Fail(ApiError::Rejected(message))
            &&& message@ == out_of_turn()
        },
    }
}

/// One step of the search for the latest reply in a community: takes the
/// state and what happened, and gives the next state and what to do.
pub fn get_last_reply_in_community(
    state: CommunityReplyState,
    event: CommunityReplyEvent,
) -> (step: (CommunityReplyState, CommunityReplyAction))
    ensures
        community_reply_step(state, event, step.0, step.1),
{
    match (state, event) {
        (
            CommunityReplyState::Start,
            CommunityReplyEvent::Begin { community_id, auth, increased_rate_limit },
        ) => {
            if !increased_rate_limit {
                (CommunityReplyState::Finished, CommunityReplyAction::Return(None))
            } else {
                let comments = ApiCall::ListCommunityComments {
                    sort: CommentSortType::New,
                    limit: 1,
                    community_id,
                    auth: duplicate_auth(&auth),
                };
                let posts = ApiCall::ListPosts {
                    community_id,
                    sort: SortType::NewComments,
                    limit: 1,
                    page: 1,
                    auth,
                };
                (CommunityReplyState::AwaitingLists, CommunityReplyAction::Call(comments, posts))
            }
        },
        (CommunityReplyState::AwaitingLists, CommunityReplyEvent::Listed { comments, posts }) => {
            match comments {
                Err(error) => (CommunityReplyState::Finished, CommunityReplyAction::Fail(error)),
                Ok(comments) => match posts {
                    Err(error) => (CommunityReplyState::Finished, CommunityReplyAction::Fail(error)),
                    Ok(posts) => {
                        let latest = latest_in_community(&comments, &posts);
                        (CommunityReplyState::Finished, CommunityReplyAction::Return(latest))
                    },
                },
            }
        },
        _ => (
            CommunityReplyState::Finished,
            CommunityReplyAction::Fail(
                ApiError::Rejected("event does not fit the state".to_owned()),
            ),
        ),
    }
}

/// The later of a comment and a post is one of the two; it is not earlier
/// than either; where both were published at the same time it is the
/// comment; and there is none only where neither is given.
pub proof fn lemma_later_of_is_latest(comment: Option<PostOrComment>, post: Option<PostOrComment>)
    ensures
        later_of(comment, post) is None <==> (comment is None && post is None),
        later_of(comment, post) == comment || later_of(comment, post) == post,
        comment matches Some(c) ==> !later_of(comment, post)->0.time.is_before(c.time),
        post matches Some(p) ==> !later_of(comment, post)->0.time.is_before(p.time),
        (comment is Some && post is Some && comment->0.time == post->0.time) ==> later_of(
            comment,
            post,
        ) == comment,
        (comment is None) ==> later_of(comment, post) == post,
        (post is None) ==> later_of(comment, post) == comment,
{
}

/// Something that the visitor has not read yet: a mention or a reply.
#[derive(Debug)]
pub struct Notification {
    pub title: String,
    pub from_user: Person,
    pub reference: String,
    pub time: Timestamp,
    pub link: String,
}

impl Clone for Notification {
    fn clone(&self) -> (copy: Notification)
        ensures
            copy == *self,
    {
        Notification {
            title: self.title.clone(),
            from_user: self.from_user.clone(),
            reference: self.reference.clone(),
            time: self.time,
            link: self.link.clone(),
        }
    }
}

impl Keyed for Notification {
    open spec fn key(&self) -> int {
        self.time.instant()
    }

    fn key_lt(&self, other: &Notification) -> (smaller: bool) {
        self.time.before(&other.time)
    }
}

/// The link to the thread of the post with number `post_id`.
pub open spec fn topic_link(post_id: int) -> Seq<char> {
    "/view_topic?t="@ + decimal(post_id)
}

impl Notification {
    /// Whether `self` tells of `mention`: under the title `Mention`, from the
    /// comment's author, quoting the comment, at the comment's time, with a
    /// link to the thread.
    pub open spec fn is_mention(&self, mention: PersonMentionView) -> bool {
        &&& self.title@ == "Mention"@
        &&& self.from_user == mention.creator
        &&& self.reference == mention.comment.content
        &&& self.time == mention.comment.published
        &&& self.link@ == topic_link(mention.post.id as int)
    }

    /// Whether `self` tells of `reply`: under the title `Reply`, from the
    /// comment's author, quoting the comment, at the comment's time, with a
    /// link to the thread.
    pub open spec fn is_reply(&self, reply: CommentReplyView) -> bool {
        &&& self.title@ == "Reply"@
        &&& self.from_user == reply.creator
        &&& self.reference == reply.comment.content
        &&& self.time == reply.comment.published
        &&& self.link@ == topic_link(reply.post.id as int)
    }

    /// The notification that tells of `mention`.
    pub fn from_mention(mention: PersonMentionView) -> (notification: Notification)
        ensures
            notification.is_mention(mention),
    {
        let id = int_to_string(mention.post.id as i64);
        Notification {
            title: "Mention".to_owned(),
            from_user: mention.creator,
            reference: mention.comment.content,
            time: mention.comment.published,
            link: concat("/view_topic?t=", id.as_str()),
        }
    }

    /// The notification that tells of `reply`.
    pub fn from_reply(reply: CommentReplyView) -> (notification: Notification)
        ensures
            notification.is_reply(reply),
    {
        let id = int_to_string(reply.post.id as i64);
        Notification {
            title: "Reply".to_owned(),
            from_user: reply.creator,
            reference: reply.comment.content,
            time: reply.comment.published,
            link: concat("/view_topic?t=", id.as_str()),
        }
    }
}

/// Whether `inbox` holds a notification for each of `mentions`, in their
/// order, followed by one for each of `replies`, in theirs.
pub open spec fn is_inbox(
    inbox: Seq<Notification>,
    mentions: Seq<PersonMentionView>,
    replies: Seq<CommentReplyView>,
) -> bool {
    &&& inbox.len() == mentions.len() + replies.len()
    &&& forall|i: int| 0 <= i < mentions.len() ==> (#[trigger] inbox[i]).is_mention(mentions[i])
    &&& forall|i: int|
        0 <= i < replies.len() ==> (#[trigger] inbox[mentions.len() + i]).is_reply(replies[i])
}

/// Turns mentions and replies into notifications: first those for the
/// mentions, then those for the replies.
pub fn collect_notifications(mentions: Vec<PersonMentionView>, replies: Vec<CommentReplyView>) -> (inbox:
    Vec<Notification>)
    ensures
        is_inbox(inbox@, mentions@, replies@),
{
    let ghost all_mentions = mentions@;
    let ghost all_replies = replies@;
    let mut inbox: Vec<Notification> = Vec::new();
    let mut mentions = reverse(mentions);
    let mut replies = reverse(replies);
    while mentions.len() > 0
        invariant
            mentions@ == all_mentions.reverse().take(mentions@.len() as int),
            mentions@.len() <= all_mentions.len(),
            inbox@.len() == all_mentions.len() - mentions@.len(),
            forall|i: int| 0 <= i < inbox@.len() ==> (#[trigger] inbox@[i]).is_mention(all_mentions[i]),
        decreases mentions.len(),
    {
        let mention = mentions.pop().unwrap();
        inbox.push(Notification::from_mention(mention));
    }
    while replies.len() > 0
        invariant
            replies@ == all_replies.reverse().take(replies@.len() as int),
            replies@.len() <= all_replies.len(),
            inbox@.len() == all_mentions.len() + all_replies.len() - replies@.len(),
            forall|i: int|
                0 <= i < all_mentions.len() ==> (#[trigger] inbox@[i]).is_mention(all_mentions[i]),
            forall|i: int|
                0 <= i < all_replies.len() - replies@.len() ==> (#[trigger] inbox@[all_mentions.len()
                    + i]).is_reply(all_replies[i]),
        decreases replies.len(),
    {
        let ghost done = all_replies.len() - replies@.len();
        let reply = replies.pop().unwrap();
        inbox.push(Notification::from_reply(reply));
        assert forall|i: int| 0 <= i < done + 1 implies (#[trigger] inbox@[all_mentions.len()
            + i]).is_reply(all_replies[i]) by {
            if i < done {
            }
        }
    }
    inbox
}

/// Whether `sorted` is the visitor's inbox for `mentions` and `replies`: the
/// notifications for the mentions, followed by those for the replies, put in
/// the order of their times, oldest first; notifications of the same time
/// stay in the order in which they came. A notification is made for every
/// mention and every reply, also where a reply is a mention too.
pub open spec fn is_sorted_inbox(
    sorted: Seq<Notification>,
    mentions: Seq<PersonMentionView>,
    replies: Seq<CommentReplyView>,
) -> bool {
    exists|inbox: Seq<Notification>|
        is_inbox(inbox, mentions, replies) && sorted == #[trigger] stable_sort(inbox)
}

/// The visitor's inbox holds one notification for every mention and every
/// reply, and in it no notification comes before an older one.
pub proof fn lemma_sorted_inbox_is_oldest_first(
    sorted: Seq<Notification>,
    mentions: Seq<PersonMentionView>,
    replies: Seq<CommentReplyView>,
)
    requires
        is_sorted_inbox(sorted, mentions, replies),
    ensures
        sorted.len() == mentions.len() + replies.len(),
        is_sorted(sorted),
        forall|i: int, j: int|
            0 <= i <= j < sorted.len() ==> !sorted[j].time.is_before(sorted[i].time),
{
    let inbox = choose|inbox: Seq<Notification>|
        is_inbox(inbox, mentions, replies) && sorted == #[trigger] stable_sort(inbox);
    crate::sort::lemma_stable_sort_sorts(inbox);
    assert forall|i: int, j: int| 0 <= i <= j < sorted.len() implies !sorted[j].time.is_before(
        sorted[i].time,
    ) by {
        assert(sorted[i].key() <= sorted[j].key());
        crate::time::lemma_instant_orders(sorted[j].time, sorted[i].time);
    }
}

/// Merges the answers to the calls for the unread mentions and for the unread
/// replies into one list of notifications, oldest first. If the call for the
/// mentions failed, its error is returned; else that of the call for the
/// replies, if that failed.
pub fn get_notifications(
    mentions: Result<Vec<PersonMentionView>, ApiError>,
    replies: Result<Vec<CommentReplyView>, ApiError>,
) -> (result: Result<Vec<Notification>, ApiError>)
    ensures
        match (mentions, replies) {
            (Err(error), _) => result == Err::<Vec<Notification>, ApiError>(error),
            (Ok(_), Err(error)) => result == Err::<Vec<Notification>, ApiError>(error),
            (Ok(mentions), Ok(replies)) => {
                &&& result matches Ok(sorted)
                &&& is_sorted_inbox(sorted@, mentions@, replies@)
                &&& is_sorted(sorted@)
                &&& sorted@.len() == mentions@.len() + replies@.len()
            },
        },
{
    let mentions = match mentions {
        Ok(mentions) => mentions,
        Err(error) => {
            return Err(error);
        },
    };
    let replies = match replies {
        Ok(replies) => replies,
        Err(error) => {
            return Err(error);
        },
    };
    let inbox = collect_notifications(mentions, replies);
    let sorted = sort_by_key(inbox);
    Ok(sorted)
}

/// The calls that fetch what [`get_notifications`] merges: the visitor's
/// unread mentions, and the unread replies to the visitor.
pub fn notification_calls(auth: Sensitive) -> (calls: (ApiCall, ApiCall))
    ensures
        calls.0 == (ApiCall::ListMentions { unread_only: true, auth }),
        calls.1 == (ApiCall::ListReplies { unread_only: true, auth }),
{
    let second = auth.duplicate();
    (
        ApiCall::ListMentions { unread_only: true, auth },
        ApiCall::ListReplies { unread_only: true, auth: second },
    )
}

} // verus!
