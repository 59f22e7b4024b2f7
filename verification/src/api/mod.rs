//! The calls that the front-end makes to the backend's REST interface, and
//! how an answer is turned into a value or an error.

pub mod categories;
pub mod comment;
pub mod community;
pub mod extra;
pub mod image;
pub mod moderation;
pub mod post;
pub mod private_message;
pub mod site;
pub mod user;

use crate::error::ApiError;
use crate::text::concat;
use vstd::prelude::*;

verus! {

/// The backend's address, followed by the interface's version prefix and `path`.
pub open spec fn request_url(backend: Seq<char>, path: Seq<char>) -> Seq<char> {
    backend + "/api/v3"@ + path
}

/// The address to which the call for `path` is sent, on the backend at `backend`.
pub fn gen_request_url(backend: &str, path: &str) -> (url: String)
    ensures
        url@ == request_url(backend@, path@),
{
    let prefix = concat(backend, "/api/v3");
    concat(prefix.as_str(), path)
}

/// The longest that a call may take to reach the backend, in seconds.
pub const CONNECT_TIMEOUT_SECS: u64 = 30;

/// The longest that a call may take from its start to the end of the
/// backend's answer, in seconds.
pub const REQUEST_TIMEOUT_SECS: u64 = 30;

/// A session token, or another secret, that must not appear in a log.
pub struct Sensitive {
    value: String,
}

impl View for Sensitive {
    type V = Seq<char>;

    closed spec fn view(&self) -> Seq<char> {
        self.value@
    }
}

impl Sensitive {
    /// Wraps a secret.
    pub fn new(value: String) -> (secret: Sensitive)
        ensures
            secret@ == value@,
    {
        Sensitive { value }
    }

    /// The secret itself.
    pub fn into_inner(self) -> (value: String)
        ensures
            value@ == self@,
    {
        self.value
    }

    /// The secret itself, borrowed.
    pub fn expose(&self) -> (value: &str)
        ensures
            value@ == self@,
    {
        self.value.as_str()
    }

    /// A copy of the secret.
    pub fn duplicate(&self) -> (copy: Sensitive)
        ensures
            copy == *self,
    {
        Sensitive { value: self.value.clone() }
    }
}

/// A copy of an optional secret.
pub fn duplicate_auth(auth: &Option<Sensitive>) -> (copy: Option<Sensitive>)
    ensures
        copy == *auth,
{
    match auth {
        Some(secret) => Some(secret.duplicate()),
        None => None,
    }
}

/// A community or a person, given by name or by number.
pub enum NameOrId {
    Name(String),
    Id(i32),
}

/// The order in which the backend lists posts and communities.
#[derive(Clone, Copy, Debug, PartialEq, Eq, Structural)]
pub enum SortType {
    NewComments,
}

/// The order in which the backend lists comments.
#[derive(Clone, Copy, Debug, PartialEq, Eq, Structural)]
pub enum CommentSortType {
    New,
}

/// Which communities a listing covers.
#[derive(Clone, Copy, Debug, PartialEq, Eq, Structural)]
pub enum ListingType {
    All,
    Local,
    Subscribed,
}

/// The HTTP method of a call.
#[derive(Clone, Copy, Debug, PartialEq, Eq, Structural)]
pub enum Method {
    Get,
    Post,
    Put,
}

/// What a visitor entered to register.
pub struct RegisterParams {
    pub username: String,
    pub password: Sensitive,
    pub password_verify: Sensitive,
    pub show_nsfw: bool,
    pub email: Option<Sensitive>,
    pub captcha_uuid: Option<String>,
    pub captcha_answer: Option<String>,
    pub honeypot: Option<String>,
    pub answer: Option<String>,
}

/// A change of password.
pub struct ChangePassword {
    pub new_password: Sensitive,
    pub new_password_verify: Sensitive,
    pub old_password: Sensitive,
    pub auth: Sensitive,
}

/// The settings of a user that the profile form can change. A field that is
/// `None` is left as it is.
pub struct SaveUserSettings {
    pub display_name: Option<String>,
    pub email: Option<Sensitive>,
    pub bio: Option<String>,
    pub interface_language: Option<String>,
    pub avatar: Option<String>,
    pub auth: Sensitive,
}

/// One call to the backend, with the parameters that the front-end sets.
/// A parameter that is not named is left to the backend's default.
#[allow(inconsistent_fields)]
pub enum ApiCall {
    ListPosts { community_id: i32, sort: SortType, limit: i64, page: i64, auth: Option<Sensitive> },
    GetPost { id: i32, auth: Option<Sensitive> },
    CreatePost { name: String, body: String, community_id: i32, auth: Sensitive },
    EditPost { post_id: i32, name: String, body: String, auth: Sensitive },
    ReportPost { post_id: i32, reason: String, auth: Sensitive },
    ListComments { sort: CommentSortType, post_id: i32, auth: Option<Sensitive> },
    ListCommunityComments {
        sort: CommentSortType,
        limit: i64,
        community_id: i32,
        auth: Option<Sensitive>,
    },
    CreateComment { post_id: i32, content: String, parent_id: Option<i32>, auth: Sensitive },
    EditComment { comment_id: i32, content: String, auth: Sensitive },
    GetComment { id: i32, auth: Option<Sensitive> },
    ReportComment { comment_id: i32, reason: String, auth: Sensitive },
    ListCommunities {
        listing_type: ListingType,
        sort: SortType,
        page: Option<i64>,
        limit: i64,
        auth: Option<Sensitive>,
    },
    GetCommunity { name: Option<String>, id: Option<i32>, auth: Option<Sensitive> },
    FollowCommunity { community_id: i32, follow: bool, auth: Sensitive },
    RemovePost { post_id: i32, removed: bool, reason: String, auth: Sensitive },
    RemoveComment { comment_id: i32, removed: bool, reason: String, auth: Sensitive },
    GetModlog { auth: Option<Sensitive> },
    ListPrivateMessages { unread_only: bool, auth: Sensitive },
    MarkPrivateMessageAsRead { private_message_id: i32, read: bool, auth: Sensitive },
    CreatePrivateMessage { content: String, recipient_id: i32, auth: Sensitive },
    GetSite { auth: Option<Sensitive> },
    CreateSite { name: String, description: Option<String>, auth: Sensitive },
    Search { q: String, auth: Option<Sensitive> },
    ResolveObject { q: String, auth: Option<Sensitive> },
    GetPersonDetails { username: Option<String>, person_id: Option<i32>, auth: Option<Sensitive> },
    Login { username_or_email: Sensitive, password: Sensitive },
    GetCaptcha,
    Register(RegisterParams),
    ListMentions { unread_only: bool, auth: Sensitive },
    ListReplies { unread_only: bool, auth: Sensitive },
    MarkAllAsRead { auth: Sensitive },
    ChangePassword(ChangePassword),
    SaveUserSettings(SaveUserSettings),
}

impl ApiCall {
    /// The path of the call's endpoint, below the interface's version prefix.
    pub open spec fn endpoint(&self) -> Seq<char> {
        match self {
            ApiCall::ListPosts { .. } => "/post/list"@,
            ApiCall::GetPost { .. } => "/post"@,
            ApiCall::CreatePost { .. } => "/post"@,
            ApiCall::EditPost { .. } => "/post"@,
            ApiCall::ReportPost { .. } => "/post/report"@,
            ApiCall::ListComments { .. } => "/comment/list"@,
            ApiCall::ListCommunityComments { .. } => "/comment/list"@,
            ApiCall::CreateComment { .. } => "/comment"@,
            ApiCall::EditComment { .. } => "/comment"@,
            ApiCall::GetComment { .. } => "/comment"@,
            ApiCall::ReportComment { .. } => "/comment/report"@,
            ApiCall::ListCommunities { .. } => "/community/list"@,
            ApiCall::GetCommunity { .. } => "/community"@,
            ApiCall::FollowCommunity { .. } => "/community/follow"@,
            ApiCall::RemovePost { .. } => "/post/remove"@,
            ApiCall::RemoveComment { .. } => "/comment/remove"@,
            ApiCall::GetModlog { .. } => "/modlog"@,
            ApiCall::ListPrivateMessages { .. } => "/private_message/list"@,
            ApiCall::MarkPrivateMessageAsRead { .. } => "/private_message/mark_as_read"@,
            ApiCall::CreatePrivateMessage { .. } => "/private_message"@,
            ApiCall::GetSite { .. } => "/site"@,
            ApiCall::CreateSite { .. } => "/site"@,
            ApiCall::Search { .. } => "/search"@,
            ApiCall::ResolveObject { .. } => "/resolve_object"@,
            ApiCall::GetPersonDetails { .. } => "/user"@,
            ApiCall::Login { .. } => "/user/login"@,
            ApiCall::GetCaptcha => "/user/get_captcha"@,
            ApiCall::Register(_) => "/user/register"@,
            ApiCall::ListMentions { .. } => "/user/mention"@,
            ApiCall::ListReplies { .. } => "/user/replies"@,
            ApiCall::MarkAllAsRead { .. } => "/user/mark_all_as_read"@,
            ApiCall::ChangePassword(_) => "/user/change_password"@,
            ApiCall::SaveUserSettings(_) => "/user/save_user_settings"@,
        }
    }

    /// The method by which the call is made. The parameters of a `Get` call
    /// travel in the query string, those of the others as a JSON body; the
    /// session token is one of them in either case.
    pub open spec fn verb(&self) -> Method {
        match self {
            ApiCall::ListPosts { .. } => Method::Get,
            ApiCall::GetPost { .. } => Method::Get,
            ApiCall::CreatePost { .. } => Method::Post,
            ApiCall::EditPost { .. } => Method::Put,
            ApiCall::ReportPost { .. } => Method::Post,
            ApiCall::ListComments { .. } => Method::Get,
            ApiCall::ListCommunityComments { .. } => Method::Get,
            ApiCall::CreateComment { .. } => Method::Post,
            ApiCall::EditComment { .. } => Method::Put,
            ApiCall::GetComment { .. } => Method::Get,
            ApiCall::ReportComment { .. } => Method::Post,
            ApiCall::ListCommunities { .. } => Method::Get,
            ApiCall::GetCommunity { .. } => Method::Get,
            ApiCall::FollowCommunity { .. } => Method::Post,
            ApiCall::RemovePost { .. } => Method::Post,
            ApiCall::RemoveComment { .. } => Method::Post,
            ApiCall::GetModlog { .. } => Method::Get,
            ApiCall::ListPrivateMessages { .. } => Method::Get,
            ApiCall::MarkPrivateMessageAsRead { .. } => Method::Post,
            ApiCall::CreatePrivateMessage { .. } => Method::Post,
            ApiCall::GetSite { .. } => Method::Get,
            ApiCall::CreateSite { .. } => Method::Post,
            ApiCall::Search { .. } => Method::Get,
            ApiCall::ResolveObject { .. } => Method::Get,
            ApiCall::GetPersonDetails { .. } => Method::Get,
            ApiCall::Login { .. } => Method::Post,
            ApiCall::GetCaptcha => Method::Get,
            ApiCall::Register(_) => Method::Post,
            ApiCall::ListMentions { .. } => Method::Get,
            ApiCall::ListReplies { .. } => Method::Get,
            ApiCall::MarkAllAsRead { .. } => Method::Post,
            ApiCall::ChangePassword(_) => Method::Put,
            ApiCall::SaveUserSettings(_) => Method::Put,
        }
    }

    /// The path of the call's endpoint.
    pub fn path(&self) -> (path: &'static str)
        ensures
            path@ == self.endpoint(),
    {
        match self {
            ApiCall::ListPosts { .. } => "/post/list",
            ApiCall::GetPost { .. } => "/post",
            ApiCall::CreatePost { .. } => "/post",
            ApiCall::EditPost { .. } => "/post",
            ApiCall::ReportPost { .. } => "/post/report",
            ApiCall::ListComments { .. } => "/comment/list",
            ApiCall::ListCommunityComments { .. } => "/comment/list",
            ApiCall::CreateComment { .. } => "/comment",
            ApiCall::EditComment { .. } => "/comment",
            ApiCall::GetComment { .. } => "/comment",
            ApiCall::ReportComment { .. } => "/comment/report",
            ApiCall::ListCommunities { .. } => "/community/list",
            ApiCall::GetCommunity { .. } => "/community",
            ApiCall::FollowCommunity { .. } => "/community/follow",
            ApiCall::RemovePost { .. } => "/post/remove",
            ApiCall::RemoveComment { .. } => "/comment/remove",
            ApiCall::GetModlog { .. } => "/modlog",
            ApiCall::ListPrivateMessages { .. } => "/private_message/list",
            ApiCall::MarkPrivateMessageAsRead { .. } => "/private_message/mark_as_read",
            ApiCall::CreatePrivateMessage { .. } => "/private_message",
            ApiCall::GetSite { .. } => "/site",
            ApiCall::CreateSite { .. } => "/site",
            ApiCall::Search { .. } => "/search",
            ApiCall::ResolveObject { .. } => "/resolve_object",
            ApiCall::GetPersonDetails { .. } => "/user",
            ApiCall::Login { .. } => "/user/login",
            ApiCall::GetCaptcha => "/user/get_captcha",
            ApiCall::Register(_) => "/user/register",
            ApiCall::ListMentions { .. } => "/user/mention",
            ApiCall::ListReplies { .. } => "/user/replies",
            ApiCall::MarkAllAsRead { .. } => "/user/mark_all_as_read",
            ApiCall::ChangePassword(_) => "/user/change_password",
            ApiCall::SaveUserSettings(_) => "/user/save_user_settings",
        }
    }

    /// The method by which the call is made.
    pub fn method(&self) -> (method: Method)
        ensures
            method == self.verb(),
    {
        match self {
            ApiCall::ListPosts { .. } => Method::Get,
            ApiCall::GetPost { .. } => Method::Get,
            ApiCall::CreatePost { .. } => Method::Post,
            ApiCall::EditPost { .. } => Method::Put,
            ApiCall::ReportPost { .. } => Method::Post,
            ApiCall::ListComments { .. } => Method::Get,
            ApiCall::ListCommunityComments { .. } => Method::Get,
            ApiCall::CreateComment { .. } => Method::Post,
            ApiCall::EditComment { .. } => Method::Put,
            ApiCall::GetComment { .. } => Method::Get,
            ApiCall::ReportComment { .. } => Method::Post,
            ApiCall::ListCommunities { .. } => Method::Get,
            ApiCall::GetCommunity { .. } => Method::Get,
            ApiCall::FollowCommunity { .. } => Method::Post,
            ApiCall::RemovePost { .. } => Method::Post,
            ApiCall::RemoveComment { .. } => Method::Post,
            ApiCall::GetModlog { .. } => Method::Get,
            ApiCall::ListPrivateMessages { .. } => Method::Get,
            ApiCall::MarkPrivateMessageAsRead { .. } => Method::Post,
            ApiCall::CreatePrivateMessage { .. } => Method::Post,
            ApiCall::GetSite { .. } => Method::Get,
            ApiCall::CreateSite { .. } => Method::Post,
            ApiCall::Search { .. } => Method::Get,
            ApiCall::ResolveObject { .. } => Method::Get,
            ApiCall::GetPersonDetails { .. } => Method::Get,
            ApiCall::Login { .. } => Method::Post,
            ApiCall::GetCaptcha => Method::Get,
            ApiCall::Register(_) => Method::Post,
            ApiCall::ListMentions { .. } => Method::Get,
            ApiCall::ListReplies { .. } => Method::Get,
            ApiCall::MarkAllAsRead { .. } => Method::Post,
            ApiCall::ChangePassword(_) => Method::Put,
            ApiCall::SaveUserSettings(_) => Method::Put,
        }
    }

    /// The address to which the call is sent, on the backend at `backend`.
    pub fn url(&self, backend: &str) -> (url: String)
        ensures
            url@ == request_url(backend@, self.endpoint()),
    {
        gen_request_url(backend, self.path())
    }
}

/// The body of an answer that reports a refusal.
#[derive(Debug)]
pub struct ErrorResponse {
    pub error: String,
}

/// Whether `status` reports success: the codes from 200 to 299.
pub open spec fn is_success_status(status: u16) -> bool {
    200 <= status < 300
}

/// Decides whether an answer with `status` carries the expected value (`true`)
/// or an [`ErrorResponse`] (`false`).
pub fn is_success(status: u16) -> (success: bool)
    ensures
        success == is_success_status(status),
{
    200 <= status && status < 300
}

/// The body of an answer, decoded as its status asks: as the expected value
/// where the status reports success, as an [`ErrorResponse`] where it does
/// not. Either decoding may fail, with a message.
pub enum Decoded<T> {
    Body(Result<T, String>),
    Refusal(Result<ErrorResponse, String>),
}

impl<T> Decoded<T> {
    /// Whether the body was decoded as the status `status` asks: as the
    /// expected value if and only if the status reports success.
    pub open spec fn fits(&self, status: u16) -> bool {
        self is Body <==> is_success_status(status)
    }

    /// Decides whether the body was decoded as the status `status` asks.
    pub fn fits_status(&self, status: u16) -> (fits: bool)
        ensures
            fits == self.fits(status),
    {
        match self {
            Decoded::Body(_) => is_success(status),
            Decoded::Refusal(_) => !is_success(status),
        }
    }
}

/// Turns the answer to a call into the call's result. The body of an answer
/// whose status reports success is decoded as the expected value, and is the
/// result; that of any other answer is decoded as a refusal, and its token
/// is the error. A body that could not be decoded is an error of its own,
/// with the decoder's message. The body was decoded as the status asks.
pub fn handle_response<T>(status: u16, decoded: Decoded<T>) -> (result: Result<T, ApiError>)
    requires
        decoded.fits(status),
    ensures
        result == match decoded {
            Decoded::Body(Ok(value)) => Ok::<T, ApiError>(value),
            Decoded::Body(Err(message)) => Err(ApiError::Deserialize(message)),
            Decoded::Refusal(Ok(refusal)) => Err(ApiError::Upstream(refusal.error)),
            Decoded::Refusal(Err(message)) => Err(ApiError::Deserialize(message)),
        },
        result is Ok ==> is_success_status(status),
        result matches Err(ApiError::Upstream(_)) ==> !is_success_status(status),
{
    match decoded {
        Decoded::Body(Ok(value)) => Ok(value),
        Decoded::Body(Err(message)) => Err(ApiError::Deserialize(message)),
        Decoded::Refusal(Ok(refusal)) => Err(ApiError::Upstream(refusal.error)),
        Decoded::Refusal(Err(message)) => Err(ApiError::Deserialize(message)),
    }
}

} // verus!
