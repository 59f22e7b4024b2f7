//! The front page, the list of communities, and the site's setup.

use crate::api::community::list_communities;
use crate::api::site::create_site;
use crate::api::user::{register, register_params_of};
use crate::api::{ApiCall, ListingType, Sensitive, SortType};
use crate::error::ApiError;
use crate::model::CommunityView;
use crate::pagination::{pagination_of, strip_fits, PageLimit, Pagination, PAGE_ITEMS};
use crate::routes::backend_endpoints::AcceptHeader;
use crate::routes::post::page_or_first;
use crate::routes::user::RegisterForm;
use crate::site_fairing::SiteData;
use crate::sort::{sort_by_key, stable_sort, Keyed};
use std::str::FromStr;
use vstd::prelude::*;

verus! {

/// What the front page does.
#[derive(Clone, Copy, Debug, PartialEq, Eq, Structural)]
pub enum IndexStep {
    /// The site is not set up: send the visitor to the setup page.
    Setup,
    /// The request asks for the site's own object: forward it to the backend.
    Forward,
    /// Show the categories.
    Categories,
}

/// Decides what the front page does: a site that is not set up is set up
/// first; a request for the site's own object is forwarded to the backend;
/// every other request is shown the categories.
pub fn index(site_data: &SiteData, accept: &AcceptHeader) -> (step: IndexStep)
    ensures
        step == if !site_data.site.site_setup {
            IndexStep::Setup
        } else if accept.asks_for_object() {
            IndexStep::Forward
        } else {
            IndexStep::Categories
        },
{
    if !site_data.site.site_setup {
        IndexStep::Setup
    } else if accept.wants_object() {
        IndexStep::Forward
    } else {
        IndexStep::Categories
    }
}

/// The page to which the visitor is sent where the categories cannot be shown.
pub fn index_fallback() -> (page: &'static str)
    ensures
        page@ == "/community_list"@,
{
    "/community_list"
}

/// The kind of listing that goes by the name `mode`, if one does: the
/// names are `All`, `Local` and `Subscribed`, and no others.
pub open spec fn named_listing_type(mode: Seq<char>) -> Option<ListingType> {
    if mode == "All"@ {
        Some(ListingType::All)
    } else if mode == "Local"@ {
        Some(ListingType::Local)
    } else if mode == "Subscribed"@ {
        Some(ListingType::Subscribed)
    } else {
        None
    }
}

/// `lemmy_db_schema::ListingType::from_str`: it accepts the names of the
/// variants, written as the variants are, and nothing else.
#[verifier::external_body]
fn listing_type_from_str(mode: &str) -> (parsed: Option<ListingType>)
    ensures
        parsed == named_listing_type(mode@),
{
    match lemmy_api_common::lemmy_db_schema::ListingType::from_str(mode).ok()? {
        lemmy_api_common::lemmy_db_schema::ListingType::All => Some(ListingType::All),
        lemmy_api_common::lemmy_db_schema::ListingType::Local => Some(ListingType::Local),
        lemmy_api_common::lemmy_db_schema::ListingType::Subscribed => Some(ListingType::Subscribed),
    }
}

/// The kind of listing that a request asks for: all communities where it
/// names none; a name that is no kind of listing is refused.
pub open spec fn listing_asked(mode: Option<Seq<char>>) -> Option<ListingType> {
    match mode {
        Some(name) => named_listing_type(name),
        None => Some(ListingType::All),
    }
}

/// The call that fetches one page of the list of communities, of the
/// kind that the request names.
pub fn community_list(mode: Option<&str>, page: Option<i32>, auth: Option<Sensitive>) -> (call:
    Result<ApiCall, ApiError>)
    ensures
        match listing_asked(
            match mode {
                Some(name) => Some(name@),
                None => None,
            },
        ) {
            Some(listing_type) => call == Ok::<ApiCall, ApiError>(
                ApiCall::ListCommunities {
                    listing_type,
                    sort: SortType::NewComments,
                    page: match page {
                        Some(page) => Some(page as i64),
                        None => None,
                    },
                    limit: PAGE_ITEMS as i64,
                    auth,
                },
            ),
            None => call matches Err(ApiError::Rejected(message)) && message@
                == "Matching variant not found"@,
        },
{
    let listing_type = match mode {
        Some(name) => listing_type_from_str(name),
        None => Some(ListingType::All),
    };
    match listing_type {
        Some(listing_type) => Ok(list_communities(listing_type, page, auth)),
        None => Err(ApiError::Rejected("Matching variant not found".to_owned())),
    }
}

impl Keyed for CommunityView {
    open spec fn key(&self) -> int {
        self.community.id as int
    }

    fn key_lt(&self, other: &CommunityView) -> (smaller: bool) {
        self.community.id < other.community.id
    }
}

/// Puts the communities of a page into the order in which they are shown:
/// by their numbers, ascending.
pub fn order_communities(communities: Vec<CommunityView>) -> (ordered: Vec<CommunityView>)
    ensures
        ordered@ == stable_sort(communities@),
        forall|i: int, j: int|
            0 <= i <= j < ordered@.len() ==> ordered@[i].community.id <= ordered@[j].community.id,
        ordered@.to_multiset() == communities@.to_multiset(),
{
    let ordered = sort_by_key(communities);
    assert forall|i: int, j: int| 0 <= i <= j < ordered@.len() implies ordered@[i].community.id
        <= ordered@[j].community.id by {
        assert(ordered@[i].key() <= ordered@[j].key());
    }
    ordered
}

/// The strip that leads to the other pages of the list of communities, of
/// which the current page holds `communities` communities; its last page is
/// not known.
pub fn community_pagination(page: Option<i32>, communities: usize) -> (pagination: Pagination)
    requires
        strip_fits(page_or_first(page), PageLimit::Unknown(communities)),
    ensures
        pagination@ == pagination_of(
            page_or_first(page),
            PageLimit::Unknown(communities),
            "/community_list??"@,
        ),
{
    let current = match page {
        Some(page) => page,
        None => 1,
    };
    Pagination::new(current, PageLimit::Unknown(communities), "/community_list??".to_owned())
}

/// What the setup form holds.
pub struct SetupForm {
    pub username: String,
    pub password: String,
    pub password_verify: String,
    pub show_nsfw: bool,
    pub email: Option<String>,
    pub site_name: String,
    pub site_description: Option<String>,
}

/// The registration that a setup form stands for: its name, passwords and
/// choice on adult content, and nothing else.
pub open spec fn registration_of(form: SetupForm) -> RegisterForm {
    RegisterForm {
        username: form.username,
        password: form.password,
        password_verify: form.password_verify,
        show_nsfw: form.show_nsfw,
        email: None,
        captcha_uuid: None,
        captcha_answer: None,
        honeypot: None,
        application_answer: None,
        refresh_captcha: None,
    }
}

/// The call that registers the site's first user, with what the setup form holds.
pub fn do_setup(form: &SetupForm) -> (call: ApiCall)
    ensures
        call matches ApiCall::Register(params) && register_params_of(registration_of(*form), params),
{
    let register_form = RegisterForm {
        username: form.username.clone(),
        password: form.password.clone(),
        password_verify: form.password_verify.clone(),
        show_nsfw: form.show_nsfw,
        email: None,
        captcha_uuid: None,
        captcha_answer: None,
        honeypot: None,
        application_answer: None,
        refresh_captcha: None,
    };
    register(register_form)
}

/// The call that sets up the site once its first user is registered, with
/// the session `jwt` that the registration opened.
pub fn setup_site(form: SetupForm, jwt: Sensitive) -> (call: ApiCall)
    ensures
        call == (ApiCall::CreateSite {
            name: form.site_name,
            description: form.site_description,
            auth: jwt,
        }),
{
    create_site(form.site_name, form.site_description, jwt)
}

/// The text of the page with the site's legal information.
pub fn legal(site_data: &SiteData) -> (message: Option<String>)
    ensures
        message == site_data.site.legal_information,
{
    crate::model::clone_opt_string(&site_data.site.legal_information)
}

} // verus!
