//! The backend's records, reduced to what the front-end's rules read.

use crate::time::Timestamp;
use vstd::prelude::*;

verus! {

/// A copy of an optional string.
pub fn clone_opt_string(value: &Option<String>) -> (copy: Option<String>)
    ensures
        copy == *value,
{
    match value {
        Some(text) => Some(text.clone()),
        None => None,
    }
}

/// A user, local or of another instance.
#[derive(Debug)]
pub struct Person {
    pub id: i32,
    pub name: String,
    pub display_name: Option<String>,
    pub local: bool,
    pub admin: bool,
    /// The domain of the instance that the user belongs to, where the
    /// user's address names one.
    pub actor_domain: Option<String>,
}

impl Clone for Person {
    fn clone(&self) -> (copy: Person)
        ensures
            copy == *self,
    {
        Person {
            id: self.id,
            name: self.name.clone(),
            display_name: clone_opt_string(&self.display_name),
            local: self.local,
            admin: self.admin,
            actor_domain: clone_opt_string(&self.actor_domain),
        }
    }
}

/// A community: a topical sub-forum.
#[derive(Debug)]
pub struct Community {
    pub id: i32,
    pub name: String,
    pub local: bool,
    pub actor_domain: Option<String>,
}

impl Clone for Community {
    fn clone(&self) -> (copy: Community)
        ensures
            copy == *self,
    {
        Community {
            id: self.id,
            name: self.name.clone(),
            local: self.local,
            actor_domain: clone_opt_string(&self.actor_domain),
        }
    }
}

/// A post: the opening entry of a thread.
#[derive(Debug)]
pub struct Post {
    pub id: i32,
    pub name: String,
    pub body: Option<String>,
    pub url: Option<String>,
    pub ap_id: String,
    pub published: Timestamp,
    pub deleted: bool,
    pub removed: bool,
}

impl Clone for Post {
    fn clone(&self) -> (copy: Post)
        ensures
            copy == *self,
    {
        Post {
            id: self.id,
            name: self.name.clone(),
            body: clone_opt_string(&self.body),
            url: clone_opt_string(&self.url),
            ap_id: self.ap_id.clone(),
            published: self.published,
            deleted: self.deleted,
            removed: self.removed,
        }
    }
}

impl Post {
    /// Whether the post is shown: it is neither deleted nor removed.
    pub open spec fn is_visible(&self) -> bool {
        !self.deleted && !self.removed
    }

    /// Decides whether the post is shown.
    pub fn visible(&self) -> (shown: bool)
        ensures
            shown == self.is_visible(),
    {
        !self.deleted && !self.removed
    }
}

/// A comment: a reply within a thread.
#[derive(Debug)]
pub struct Comment {
    pub id: i32,
    pub creator_id: i32,
    pub content: String,
    pub ap_id: String,
    pub published: Timestamp,
    pub deleted: bool,
    pub removed: bool,
}

impl Clone for Comment {
    fn clone(&self) -> (copy: Comment)
        ensures
            copy == *self,
    {
        Comment {
            id: self.id,
            creator_id: self.creator_id,
            content: self.content.clone(),
            ap_id: self.ap_id.clone(),
            published: self.published,
            deleted: self.deleted,
            removed: self.removed,
        }
    }
}

impl Comment {
    /// Whether the comment is shown: it is neither deleted nor removed.
    pub open spec fn is_visible(&self) -> bool {
        !self.deleted && !self.removed
    }

    /// Decides whether the comment is shown.
    pub fn visible(&self) -> (shown: bool)
        ensures
            shown == self.is_visible(),
    {
        !self.deleted && !self.removed
    }
}

/// A post with its author and the number of comments made on it.
#[derive(Debug)]
pub struct PostView {
    pub post: Post,
    pub creator: Person,
    pub comments: i64,
}

impl Clone for PostView {
    fn clone(&self) -> (copy: PostView)
        ensures
            copy == *self,
    {
        PostView { post: self.post.clone(), creator: self.creator.clone(), comments: self.comments }
    }
}

/// A comment with its author and the post that it was made on.
#[derive(Debug)]
pub struct CommentView {
    pub comment: Comment,
    pub creator: Person,
    pub post: Post,
}

impl Clone for CommentView {
    fn clone(&self) -> (copy: CommentView)
        ensures
            copy == *self,
    {
        CommentView {
            comment: self.comment.clone(),
            creator: self.creator.clone(),
            post: self.post.clone(),
        }
    }
}

/// A community as a listing shows it.
#[derive(Debug)]
pub struct CommunityView {
    pub community: Community,
}

impl Clone for CommunityView {
    fn clone(&self) -> (copy: CommunityView)
        ensures
            copy == *self,
    {
        CommunityView { community: self.community.clone() }
    }
}

/// A user as a listing shows them.
#[derive(Debug)]
pub struct PersonView {
    pub person: Person,
}

impl Clone for PersonView {
    fn clone(&self) -> (copy: PersonView)
        ensures
            copy == *self,
    {
        PersonView { person: self.person.clone() }
    }
}

/// What a search found.
#[derive(Debug)]
pub struct SearchResponse {
    pub comments: Vec<CommentView>,
    pub posts: Vec<PostView>,
    pub communities: Vec<CommunityView>,
    pub users: Vec<PersonView>,
}

/// What an address of another instance resolved to: at most one of the four.
#[derive(Debug)]
pub struct ResolveObjectResponse {
    pub comment: Option<CommentView>,
    pub post: Option<PostView>,
    pub community: Option<CommunityView>,
    pub person: Option<PersonView>,
}

/// A private message.
#[derive(Debug)]
pub struct PrivateMessage {
    pub id: i32,
    pub content: String,
    pub read: bool,
    pub published: Timestamp,
}

/// A private message with its sender and its recipient.
#[derive(Debug)]
pub struct PrivateMessageView {
    pub private_message: PrivateMessage,
    pub creator: Person,
    pub recipient: Person,
}

/// A mention of the visitor in a comment.
#[derive(Debug)]
pub struct PersonMentionView {
    pub comment: Comment,
    pub creator: Person,
    pub post: Post,
}

/// A reply to something the visitor wrote.
#[derive(Debug)]
pub struct CommentReplyView {
    pub comment: Comment,
    pub creator: Person,
    pub post: Post,
}

/// The removal of a post by a moderator, or its reversal.
#[derive(Debug)]
pub struct ModRemovePostView {
    /// Whether the post was removed (`true`) or restored (`false`).
    pub removed: Option<bool>,
    pub reason: Option<String>,
    pub when_: Timestamp,
    pub post: Post,
    pub community: Community,
}

/// The removal of a comment by a moderator, or its reversal.
#[derive(Debug)]
pub struct ModRemoveCommentView {
    /// Whether the comment was removed (`true`) or restored (`false`).
    pub removed: Option<bool>,
    pub reason: Option<String>,
    pub when_: Timestamp,
    pub comment: Comment,
    pub community: Community,
}

/// The site's own record, and the visitor's where they are logged in.
#[derive(Debug)]
pub struct Site {
    pub name: String,
    pub description: Option<String>,
    /// The scheme of the site's own address, such as `https`.
    pub actor_scheme: String,
    /// The domain of the site's own address.
    pub actor_domain: Option<String>,
    pub site_setup: bool,
    pub legal_information: Option<String>,
    pub my_user: Option<LocalUser>,
}

/// The logged-in visitor.
#[derive(Debug)]
pub struct LocalUser {
    pub person: Person,
    /// The language chosen in the profile, or `browser`.
    pub interface_language: String,
}

} // verus!
